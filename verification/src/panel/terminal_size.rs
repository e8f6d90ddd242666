//! The size of the terminal the panel opens in, read from `stty size` or tmux
//! output; sizes too small for the panel are refused.

use vstd::prelude::*;

use crate::text::{chars_of, first_word, parse_usize, parse_usize_spec, split_first_word};

verus! {

/// A window size in columns and rows.
#[derive(Clone, Copy, Debug, PartialEq, Eq)]
pub struct WindowSize {
    pub cols: usize,
    pub rows: usize,
}

impl WindowSize {
    pub fn new(cols: usize, rows: usize) -> (r: Self)
        ensures
            r.cols == cols,
            r.rows == rows,
    {
        WindowSize { cols, rows }
    }

    pub fn cols(&self) -> (r: usize)
        ensures
            r == self.cols,
    {
        self.cols
    }

    pub fn rows(&self) -> (r: usize)
        ensures
            r == self.rows,
    {
        self.rows
    }
}

/// A size the panel can use: at least 80 columns and 20 rows.
pub open spec fn valid_size(cols: usize, rows: usize) -> Option<WindowSize> {
    if cols >= 80 && rows >= 20 {
        Some(WindowSize { cols, rows })
    } else {
        None
    }
}

pub fn valid_panel_size(cols: usize, rows: usize) -> (r: Option<WindowSize>)
    ensures
        r == valid_size(cols, rows),
{
    if cols >= 80 && rows >= 20 {
        Some(WindowSize { cols, rows })
    } else {
        None
    }
}

/// The size that two numbers give, columns first.
pub open spec fn size_of_texts(cols: Seq<char>, rows: Seq<char>) -> Option<WindowSize> {
    match parse_usize_spec(cols) {
        None => None,
        Some(c) => match parse_usize_spec(rows) {
            None => None,
            Some(r) => valid_size(c, r),
        },
    }
}

/// The size that two numbers give, columns first.
pub fn parse_cols_rows(cols: &str, rows: &str) -> (r: Option<WindowSize>)
    ensures
        r == size_of_texts(cols@, rows@),
{
    let c = match parse_usize(&chars_of(cols)) {
        Some(c) => c,
        None => return None,
    };
    let r = match parse_usize(&chars_of(rows)) {
        Some(r) => r,
        None => return None,
    };
    valid_panel_size(c, r)
}

/// The first two whitespace-separated words of a text.
pub open spec fn two_words(text: Seq<char>) -> Option<(Seq<char>, Seq<char>)> {
    match first_word(text) {
        None => None,
        Some((a, rest)) => match first_word(rest) {
            None => None,
            Some((b, _)) => Some((a, b)),
        },
    }
}

fn split_two_words(text: &str) -> (r: Option<(Vec<char>, Vec<char>)>)
    ensures
        match r {
            Some((a, b)) => two_words(text@) == Some((a@, b@)),
            None => two_words(text@) is None,
        },
{
    let cs = chars_of(text);
    let (a, rest) = match split_first_word(&cs) {
        Some(x) => x,
        None => return None,
    };
    match split_first_word(&rest) {
        Some((b, _)) => Some((a, b)),
        None => None,
    }
}

/// The size in `stty size` output: rows, then columns.
pub fn parse_rows_cols(text: &str) -> (r: Option<WindowSize>)
    ensures
        r == match two_words(text@) {
            Some((rows, cols)) => size_of_texts(cols, rows),
            None => None,
        },
{
    match split_two_words(text) {
        Some((rows, cols)) => parse_cols_rows(crate::text::string_of(&cols).as_str(), crate::text::string_of(&rows).as_str()),
        None => None,
    }
}

/// The size in `tmux display-message` output: columns, then rows.
pub fn parse_cols_rows_text(text: &str) -> (r: Option<WindowSize>)
    ensures
        r == match two_words(text@) {
            Some((cols, rows)) => size_of_texts(cols, rows),
            None => None,
        },
{
    match split_two_words(text) {
        Some((cols, rows)) => parse_cols_rows(crate::text::string_of(&cols).as_str(), crate::text::string_of(&rows).as_str()),
        None => None,
    }
}

} // verus!
