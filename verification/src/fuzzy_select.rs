//! Picking one issue out of a listing. The library writes one title for
//! each issue; the user picks a title, and the library finds the issue that
//! the picked title names.

use crate::error::ValidationError;
use crate::number::{
    decimal, lemma_decimal_chars, lemma_parse_decimal, parse_i64, parse_integer, push_decimal,
};
use crate::text::{find_char, from_range, to_chars, views};
use crate::types::IssueSimple;
use vstd::prelude::*;
use vstd::string::*;

verus! {

/// The title under which an issue is offered: its number in brackets, then
/// its title.
pub open spec fn issue_title(issue: IssueSimple) -> Seq<char> {
    "("@ + decimal(issue.number as int) + ")"@ + " Title: "@ + issue.title@
}

/// The titles of a listing, in its order.
pub open spec fn titles(list: Seq<IssueSimple>) -> Seq<Seq<char>> {
    list.map_values(|issue: IssueSimple| issue_title(issue))
}

/// The place of the first `c` in `s`, or the length of `s` where it holds
/// none.
pub open spec fn position(s: Seq<char>, c: char) -> int
    decreases s.len(),
{
    if s.len() == 0 || s.first() == c {
        0
    } else {
        1 + position(s.drop_first(), c)
    }
}

/// What stands between the first character of a picked title and its first
/// `)`, or nothing where the title holds no `)`.
pub open spec fn number_text(choice: Seq<char>) -> Option<Seq<char>> {
    if !choice.contains(')') {
        None
    } else if position(choice, ')') >= 1 {
        Some(choice.subrange(1, position(choice, ')')))
    } else {
        Some(Seq::empty())
    }
}

/// The first issue of a listing that has the number `number`.
pub open spec fn find_issue(list: Seq<IssueSimple>, number: i64) -> Option<IssueSimple>
    decreases list.len(),
{
    if list.len() == 0 {
        None
    } else if list.first().number == number {
        Some(list.first())
    } else {
        find_issue(list.drop_first(), number)
    }
}

/// The issue that a pick stands for. Where nothing was picked, or the pick
/// holds no `)`, there is none; where the text before the `)` is no number,
/// the pick is refused; otherwise it is the first issue with that number.
pub open spec fn chosen(list: Seq<IssueSimple>, choice: Option<Seq<char>>) -> Result<
    Option<IssueSimple>,
    ValidationError,
> {
    match choice {
        None => Ok(None),
        Some(choice) => match number_text(choice) {
            None => Ok(None),
            Some(text) => match parse_integer(text) {
                None => Err(ValidationError::InvalidNumber),
                Some(number) => Ok(find_issue(list, number)),
            },
        },
    }
}

/// The first place of a character is where it stands with none before it.
pub proof fn lemma_position(s: Seq<char>, c: char, i: int)
    requires
        0 <= i < s.len(),
        s[i] == c,
        forall|j: int| 0 <= j < i ==> s[j] != c,
    ensures
        position(s, c) == i,
    decreases i,
{
    if i > 0 {
        let rest = s.drop_first();
        assert(rest[i - 1] == c);
        assert forall|j: int| 0 <= j < i - 1 implies rest[j] != c by {
            assert(rest[j] == s[j + 1]);
        }
        lemma_position(rest, c, i - 1);
    }
}

/// The title of every issue names the issue's number: what stands in its
/// brackets is the number in decimal notation.
pub proof fn lemma_title_holds_number(issue: IssueSimple)
    ensures
        issue_title(issue).contains(')'),
        number_text(issue_title(issue)) == Some(decimal(issue.number as int)),
{
    reveal_strlit("(");
    reveal_strlit(")");
    lemma_decimal_chars(issue.number as int);
    let number = decimal(issue.number as int);
    let title = issue_title(issue);
    let i = number.len() as int + 1;
    assert(title[i] == ')');
    assert forall|j: int| 0 <= j < i implies title[j] != ')' by {
        if j > 0 {
            assert(title[j] == number[j - 1]);
        }
    }
    lemma_position(title, ')', i);
    assert(title.subrange(1, i) =~= number);
}

/// The first issue with a number is the one that is found by it.
pub proof fn lemma_find_first(list: Seq<IssueSimple>, i: int)
    requires
        0 <= i < list.len(),
        forall|j: int| 0 <= j < i ==> (#[trigger] list[j]).number != list[i].number,
    ensures
        find_issue(list, list[i].number) == Some(list[i]),
    decreases i,
{
    if i > 0 {
        let rest = list.drop_first();
        assert(list[0].number != list[i].number);
        assert(rest[i - 1] == list[i]);
        assert forall|j: int| 0 <= j < i - 1 implies (#[trigger] rest[j]).number != rest[i
            - 1].number by {
            assert(rest[j] == list[j + 1]);
        }
        lemma_find_first(rest, i - 1);
    }
}

/// Picking the title under which an issue is offered finds that issue,
/// unless an issue with the same number stands before it in the listing.
pub proof fn lemma_title_finds_its_issue(list: Seq<IssueSimple>, i: int)
    requires
        0 <= i < list.len(),
        forall|j: int| 0 <= j < i ==> (#[trigger] list[j]).number != list[i].number,
    ensures
        chosen(list, Some(titles(list)[i])) == Ok::<_, ValidationError>(Some(list[i])),
{
    lemma_title_holds_number(list[i]);
    lemma_parse_decimal(list[i].number);
    lemma_find_first(list, i);
}

/// The titles under which the issues of a listing are offered.
pub fn issue_titles(list_issues: &Vec<IssueSimple>) -> (r: Vec<String>)
    ensures
        views(r@) == titles(list_issues@),
{
    let mut r: Vec<String> = Vec::new();
    let mut i: usize = 0;
    while i < list_issues.len()
        invariant
            i <= list_issues@.len(),
            views(r@) == titles(list_issues@.take(i as int)),
        decreases list_issues@.len() - i,
    {
        let mut title = "(".to_owned();
        push_decimal(&mut title, list_issues[i].number);
        title.append(")");
        title.append(" Title: ");
        title.append(list_issues[i].title.as_str());
        assert(title@ =~= issue_title(list_issues@[i as int]));
        let ghost before = views(r@);
        r.push(title);
        assert(views(r@) =~= before.push(issue_title(list_issues@[i as int])));
        assert(views(r@) =~= titles(list_issues@.take(i + 1)));
        i += 1;
    }
    assert(list_issues@.take(list_issues@.len() as int) =~= list_issues@);
    r
}

/// The issue that the user picked. `choice` is the picked title, or nothing
/// where the user picked none.
pub fn choose_issue(list_issues: Vec<IssueSimple>, choice: Option<&str>) -> (r: Result<
    Option<IssueSimple>,
    ValidationError,
>)
    ensures
        r == chosen(
            list_issues@,
            match choice {
                Some(choice) => Some(choice@),
                None => None,
            },
        ),
{
    let picked = match choice {
        None => {
            return Ok(None);
        },
        Some(picked) => to_chars(picked),
    };
    let index = match find_char(picked.as_slice(), ')') {
        None => {
            return Ok(None);
        },
        Some(index) => index,
    };
    proof {
        lemma_position(picked@, ')', index as int);
    }
    let text = if index >= 1 {
        from_range(picked.as_slice(), 1, index)
    } else {
        String::new()
    };
    let number = parse_i64(text.as_str());
    let issue_num = match number {
        None => {
            return Err(ValidationError::InvalidNumber);
        },
        Some(n) => n,
    };
    let ghost goal = chosen(list_issues@, Some(picked@));
    assert(goal == Ok::<_, ValidationError>(find_issue(list_issues@, issue_num)));
    let mut list = list_issues;
    let mut i: usize = 0;
    assert(list@.skip(0) =~= list@);
    while i < list.len()
        invariant
            i <= list@.len(),
            list@ == list_issues@,
            choice matches Some(text) && text@ == picked@,
            goal == chosen(list_issues@, Some(picked@)),
            goal == Ok::<_, ValidationError>(find_issue(list_issues@, issue_num)),
            find_issue(list_issues@, issue_num) == find_issue(list@.skip(i as int), issue_num),
        decreases list@.len() - i,
    {
        proof {
            assert(list@.skip(i as int).first() == list@[i as int]);
            assert(list@.skip(i as int).drop_first() =~= list@.skip(i + 1));
        }
        if list[i].number == issue_num {
            return Ok(Some(list.remove(i)));
        }
        i += 1;
    }
    Ok(None)
}

} // verus!
