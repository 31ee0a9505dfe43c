use vstd::prelude::*;

use crate::tokenizer::texts;

verus! {

/// The labels of the calculator's keys, row by row.
pub open spec fn key_labels() -> Seq<Seq<char>> {
    seq![
        "CE"@,
        "C"@,
        "%"@,
        "/"@,
        "7"@,
        "8"@,
        "9"@,
        "*"@,
        "4"@,
        "5"@,
        "6"@,
        "-"@,
        "1"@,
        "2"@,
        "3"@,
        "+"@,
        "."@,
        "0"@,
        "."@,
        "="@,
    ]
}

/// The labels of the calculator's keys, row by row.
pub fn calculator_keys() -> (r: Vec<String>)
    ensures
        texts(r@) == key_labels(),
{
    let mut keys: Vec<String> = Vec::new();
    keys.push(String::from_str("CE"));
    keys.push(String::from_str("C"));
    keys.push(String::from_str("%"));
    keys.push(String::from_str("/"));
    keys.push(String::from_str("7"));
    keys.push(String::from_str("8"));
    keys.push(String::from_str("9"));
    keys.push(String::from_str("*"));
    keys.push(String::from_str("4"));
    keys.push(String::from_str("5"));
    keys.push(String::from_str("6"));
    keys.push(String::from_str("-"));
    keys.push(String::from_str("1"));
    keys.push(String::from_str("2"));
    keys.push(String::from_str("3"));
    keys.push(String::from_str("+"));
    keys.push(String::from_str("."));
    keys.push(String::from_str("0"));
    keys.push(String::from_str("."));
    keys.push(String::from_str("="));
    proof {
        assert(texts(keys@) =~= key_labels());
    }
    keys
}

/// What the full page shows: the keys and the screen.
#[derive(Debug)]
pub struct IndexTemplate {
    pub calc_input: Vec<String>,
    pub screen_content: Vec<String>,
}

/// What the screen part of the page shows.
#[derive(Debug)]
pub struct ScreenTemplate {
    pub screen_content: Vec<String>,
}

/// A page or page part that is sent back as HTML.
#[derive(Debug)]
pub struct HtmlTemplate<T>(pub T);

impl IndexTemplate {
    /// The full page for a screen showing `screen_content`.
    pub fn new(screen_content: Vec<String>) -> (r: IndexTemplate)
        ensures
            texts(r.calc_input@) == key_labels(),
            r.screen_content == screen_content,
    {
        IndexTemplate { calc_input: calculator_keys(), screen_content }
    }
}

} // verus!
