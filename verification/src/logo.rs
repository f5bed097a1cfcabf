//! Which logo to show: the user's own, or one of the built-in ones.

use vstd::prelude::*;
use crate::art::{CAT_ART_1, CAT_ART_2, CAT_ART_3};
use crate::escape::{parse_escape_sequences, unescaped};
use crate::decimal::{parse_usize, parsed_usize};
use crate::text::{chars_of, same_text, string_views};

verus! {

/// The logo type that is taken where none is given or it cannot be read.
pub const DEFAULT_TYPE: usize = 1;

/// The built-in logo of type `t`: the second cat for 2, the first for 3, the
/// third for 1 and for every other number.
pub open spec fn builtin_art(t: usize) -> Seq<char> {
    if t == 2 {
        CAT_ART_2@
    } else if t == 3 {
        CAT_ART_1@
    } else {
        CAT_ART_3@
    }
}

/// The logo that the configuration file asks for, given its text if it
/// could be read: the whole text with the escape notations replaced, white
/// space and all. A file that could not be read, or that is empty, asks for
/// none.
pub open spec fn configured_art(file: Option<Seq<char>>) -> Option<Seq<char>> {
    match file {
        Some(content) => if content.len() == 0 {
            None
        } else {
            Some(unescaped(content))
        },
        None => None,
    }
}

/// The logo to show: the configured one where there is one, else the
/// built-in one of type `t`.
pub open spec fn chosen_art(file: Option<Seq<char>>, t: usize) -> Seq<char> {
    match configured_art(file) {
        Some(art) => art,
        None => builtin_art(t),
    }
}

/// The text of a file that could be read, as a sequence of characters.
pub open spec fn file_text(file: Option<&str>) -> Option<Seq<char>> {
    match file {
        Some(content) => Some(content@),
        None => None,
    }
}

/// The built-in logo of type `t`.
pub fn builtin_logo(t: usize) -> (art: &'static str)
    ensures
        art@ == builtin_art(t),
{
    if t == 2 {
        CAT_ART_2
    } else if t == 3 {
        CAT_ART_1
    } else {
        CAT_ART_3
    }
}

/// The logo that the user's configuration file asks for. `file` is the
/// text of that file, or `None` where it is not there or cannot be read. An
/// empty file asks for no logo; any other is the logo, with its escape
/// notations replaced.
pub fn load_logo_from_config(file: Option<&str>) -> (out: Option<String>)
    ensures
        out is None <==> configured_art(file_text(file)) is None,
        out is Some ==> configured_art(file_text(file)) == Some(out->0@),
{
    match file {
        Some(content) => {
            if content.is_empty() {
                None
            } else {
                Some(parse_escape_sequences(content))
            }
        },
        None => None,
    }
}

/// The logo to show, given the text of the configuration file, if one could
/// be read, and the logo type that was asked for.
pub fn choose_logo(file: Option<&str>, t: usize) -> (out: String)
    ensures
        out@ == chosen_art(file_text(file), t),
{
    match load_logo_from_config(file) {
        Some(art) => art,
        None => builtin_logo(t).to_owned(),
    }
}

/// The logo type that the command line asks for: the number behind `-t` or
/// `--type`, where one of them is the first argument after the program's
/// name and a number that can be read follows it; else the default.
pub open spec fn requested_type(args: Seq<Seq<char>>) -> usize {
    if args.len() > 2 && (args[1] == "-t"@ || args[1] == "--type"@) {
        match parsed_usize(args[2]) {
            Some(n) => n,
            None => DEFAULT_TYPE,
        }
    } else {
        DEFAULT_TYPE
    }
}

/// The logo type that the command line `args` asks for; `args` starts with
/// the program's name.
pub fn logo_type(args: &Vec<String>) -> (t: usize)
    ensures
        t == requested_type(string_views(args@)),
{
    if args.len() > 2 {
        let flag = chars_of(args[1].as_str());
        if same_text(&flag, &chars_of("-t")) || same_text(&flag, &chars_of("--type")) {
            return match parse_usize(&chars_of(args[2].as_str())) {
                Some(n) => n,
                None => DEFAULT_TYPE,
            };
        }
    }
    DEFAULT_TYPE
}

} // verus!
