//! Building source text from pieces.

use vstd::prelude::*;

verus! {

/// The values of a list of texts.
pub open spec fn texts(items: Seq<String>) -> Seq<Seq<char>> {
    items.map_values(|item: String| item@)
}

/// The items in order, with the separator between each two of them.
pub open spec fn joined(items: Seq<Seq<char>>, separator: Seq<char>) -> Seq<char>
    decreases items.len(),
{
    if items.len() == 0 {
        Seq::empty()
    } else if items.len() == 1 {
        items[0]
    } else {
        joined(items.drop_last(), separator) + separator + items.last()
    }
}

/// The items in order, a comma behind each and a space between each two.
pub open spec fn listed(items: Seq<Seq<char>>) -> Seq<char> {
    joined(items.map_values(|item: Seq<char>| item + ","@), " "@)
}

/// The decimal digit of a number below ten.
pub open spec fn digit(value: nat) -> char {
    if value == 0 {
        '0'
    } else if value == 1 {
        '1'
    } else if value == 2 {
        '2'
    } else if value == 3 {
        '3'
    } else if value == 4 {
        '4'
    } else if value == 5 {
        '5'
    } else if value == 6 {
        '6'
    } else if value == 7 {
        '7'
    } else if value == 8 {
        '8'
    } else {
        '9'
    }
}

/// A number in decimal notation, without leading zeros.
pub open spec fn decimal(value: nat) -> Seq<char>
    decreases value,
{
    if value < 10 {
        seq![digit(value)]
    } else {
        decimal(value / 10).push(digit(value % 10))
    }
}

/// Copies a list of texts.
pub fn copy_texts(items: &Vec<String>) -> (r: Vec<String>)
    ensures
        texts(r@) == texts(items@),
{
    let mut copy: Vec<String> = Vec::new();
    let mut index: usize = 0;
    while index < items.len()
        invariant
            index <= items.len(),
            copy@.len() == index,
            forall|k: int| 0 <= k < index ==> (#[trigger] copy@[k])@ == items@[k]@,
        decreases items.len() - index,
    {
        copy.push(items[index].clone());
        index += 1;
    }
    copy
}

/// Joins texts with a separator between each two of them.
pub fn join(items: &Vec<String>, separator: &str) -> (r: String)
    ensures
        r@ == joined(texts(items@), separator@),
{
    let ghost list = texts(items@);
    let mut text = String::new();
    let mut index: usize = 0;
    while index < items.len()
        invariant
            list == texts(items@),
            index <= items.len(),
            text@ == joined(list.take(index as int), separator@),
        decreases items.len() - index,
    {
        proof {
            let longer = list.take(index + 1);
            assert(longer.drop_last() =~= list.take(index as int));
        }
        if index > 0 {
            text.append(separator);
        }
        text.append(items[index].as_str());
        index += 1;
    }
    assert(list.take(index as int) =~= list);
    text
}

/// Lists texts with a comma behind each and a space between each two.
pub fn list(items: &Vec<String>) -> (r: String)
    ensures
        r@ == listed(texts(items@)),
{
    let mut parts: Vec<String> = Vec::new();
    let mut index: usize = 0;
    while index < items.len()
        invariant
            index <= items.len(),
            parts@.len() == index,
            forall|k: int| 0 <= k < index ==> (#[trigger] parts@[k])@ == items@[k]@ + ","@,
        decreases items.len() - index,
    {
        let mut part = items[index].clone();
        part.append(",");
        parts.push(part);
        index += 1;
    }
    assert(texts(parts@) =~= texts(items@).map_values(|item: Seq<char>| item + ","@));
    join(&parts, " ")
}

/// The text of one decimal digit.
fn digit_text(value: usize) -> (r: &'static str)
    requires
        value < 10,
    ensures
        r@ == seq![digit(value as nat)],
{
    proof {
        reveal_strlit("0");
        reveal_strlit("1");
        reveal_strlit("2");
        reveal_strlit("3");
        reveal_strlit("4");
        reveal_strlit("5");
        reveal_strlit("6");
        reveal_strlit("7");
        reveal_strlit("8");
        reveal_strlit("9");
    }
    if value == 0 {
        "0"
    } else if value == 1 {
        "1"
    } else if value == 2 {
        "2"
    } else if value == 3 {
        "3"
    } else if value == 4 {
        "4"
    } else if value == 5 {
        "5"
    } else if value == 6 {
        "6"
    } else if value == 7 {
        "7"
    } else if value == 8 {
        "8"
    } else {
        "9"
    }
}

/// Writes a number in decimal notation.
pub fn decimal_text(value: usize) -> (r: String)
    ensures
        r@ == decimal(value as nat),
    decreases value,
{
    if value < 10 {
        digit_text(value).to_owned()
    } else {
        let mut text = decimal_text(value / 10);
        text.append(digit_text(value % 10));
        text
    }
}

} // verus!
