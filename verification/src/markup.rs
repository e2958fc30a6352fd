//! Markup inside a text: tags are cut out by a pattern engine, character
//! references are decoded by an entity table, and what is left of a meal's
//! name is put together here.

use vstd::prelude::*;
use regex::Regex;
use htmlentity::entity::{decode, ICodedDataTrait};
use crate::error::ParseError;
use crate::views::ok_view;
use crate::text::{
    chars_of, collapse_whitespace_chars, contains_chars, matches_at, replace_chars,
    spec_collapse_whitespace, spec_contains, spec_replace, spec_starts_with, string_of,
};

verus! {

/// `regex::Regex`: a compiled pattern, carried through as it is.
#[verifier::external_type_specification]
#[verifier::external_body]
pub struct ExRegex(Regex);

/// The compiled form of a pattern, where the engine accepts it.
pub uninterp spec fn pattern_of(pattern: Seq<char>) -> Option<Regex>;

/// The pieces of a text between the matches of a pattern, in order.
pub uninterp spec fn pieces_of(pattern: Regex, text: Seq<char>) -> Seq<Seq<char>>;

/// A text with its character references replaced by the characters they stand
/// for, where the outcome is text.
pub uninterp spec fn entities_decoded(text: Seq<char>) -> Option<Seq<char>>;

/// `regex::Regex::new`: compiles a pattern, or refuses it. The outcome is a
/// function of the pattern text alone.
#[verifier::external_body]
pub(crate) fn compile_pattern(pattern: &str) -> (compiled: Option<Regex>)
    ensures
        compiled == pattern_of(pattern@),
{
    Regex::new(pattern).ok()
}

/// `regex::Regex::split`: the substrings of the text that the matches of the
/// pattern delimit, each copied into a string of its own.
#[verifier::external_body]
pub(crate) fn split_by_pattern(pattern: &Regex, text: &str) -> (pieces: Vec<String>)
    ensures
        pieces.deep_view() == pieces_of(*pattern, text@),
{
    pattern.split(text).map(|piece| piece.to_owned()).collect()
}

/// `htmlentity::entity::decode`, read back as a string: the text with its
/// character references decoded, or nothing where the outcome is no text.
#[verifier::external_body]
pub(crate) fn decode_entities(text: &str) -> (decoded: Option<String>)
    ensures
        decoded.deep_view() == entities_decoded(text@),
{
    decode(text.as_bytes()).to_string().ok()
}

/// Decodes the character references in `text`.
pub fn decoded_text(text: &str) -> (decoded: Result<String, ParseError>)
    ensures
        ok_view(decoded) == spec_decoded_text(text@),
{
    match decode_entities(text) {
        Some(decoded) => Ok(decoded),
        None => Err(ParseError::MalformedText),
    }
}

/// The outcome of [`decoded_text`].
pub open spec fn spec_decoded_text(text: Seq<char>) -> Result<Seq<char>, ParseError> {
    match entities_decoded(text) {
        Some(decoded) => Ok(decoded),
        None => Err(ParseError::MalformedText),
    }
}

/// The pattern of an HTML tag, with or without attributes.
pub open spec fn spec_tag_pattern() -> Seq<char> {
    r#"</?\w+((\s+\w+(\s*=\s*(?:".*?"|'.*?'|[^'">\s]+))?)+\s*|\s*)/?>"#@
}

/// Compiles the pattern of an HTML tag.
pub fn tag_pattern() -> (compiled: Option<Regex>)
    ensures
        compiled == pattern_of(spec_tag_pattern()),
{
    compile_pattern(r#"</?\w+((\s+\w+(\s*=\s*(?:".*?"|'.*?'|[^'">\s]+))?)+\s*|\s*)/?>"#)
}

/// Whether a piece of a name is kept. A piece in brackets is an annotation
/// and is dropped, unless it holds the organic marker; so is a piece with an
/// equals sign, which is what is left of a broken tag; so is an empty piece.
pub open spec fn spec_keeps_piece(piece: Seq<char>) -> bool {
    &&& piece.len() > 0
    &&& spec_contains(piece, "(BIO)"@) || !spec_starts_with(piece, "("@)
    &&& !spec_contains(piece, "="@)
}

/// The kept pieces, one after another.
pub open spec fn spec_kept_text(pieces: Seq<Seq<char>>) -> Seq<char>
    decreases pieces.len(),
{
    if pieces.len() == 0 {
        Seq::empty()
    } else {
        let before = spec_kept_text(pieces.drop_last());
        if spec_keeps_piece(pieces.last()) {
            before + pieces.last()
        } else {
            before
        }
    }
}

/// The name that the pieces between the tags of a name element make: the
/// kept pieces one after another, with white space collapsed.
pub open spec fn spec_name_of_pieces(pieces: Seq<Seq<char>>) -> Seq<char> {
    spec_collapse_whitespace(spec_kept_text(pieces))
}

/// Whether a piece of a name is kept.
pub fn keeps_piece(piece: &Vec<char>) -> (kept: bool)
    ensures
        kept == spec_keeps_piece(piece@),
{
    let organic = chars_of("(BIO)");
    let bracket = chars_of("(");
    let equals = chars_of("=");
    piece.len() > 0 && (contains_chars(piece, &organic) || !matches_at(piece, &bracket, 0))
        && !contains_chars(piece, &equals)
}

/// Puts a name together from the pieces between the tags of its element.
pub fn name_of_pieces(pieces: &Vec<String>) -> (name: String)
    ensures
        name@ == spec_name_of_pieces(pieces.deep_view()),
{
    let mut kept: Vec<char> = Vec::new();
    let mut i: usize = 0;
    let ghost all = pieces.deep_view();
    assert(all.take(0) =~= Seq::<Seq<char>>::empty());
    while i < pieces.len()
        invariant
            i <= pieces.len(),
            all == pieces.deep_view(),
            kept@ == spec_kept_text(all.take(i as int)),
        decreases pieces.len() - i,
    {
        assert(all.take(i + 1).drop_last() =~= all.take(i as int));
        assert(all.take(i + 1).last() == pieces@[i as int]@);
        let mut piece = chars_of(pieces[i].as_str());
        if keeps_piece(&piece) {
            kept.append(&mut piece);
        }
        i += 1;
    }
    assert(all.take(i as int) =~= all);
    let collapsed = collapse_whitespace_chars(&kept);
    string_of(&collapsed)
}

/// The name of a meal, read from the markup inside its name element: line
/// breaks become spaces, tags are cut out, annotations are dropped, white
/// space is collapsed and character references are decoded.
pub open spec fn spec_meal_name(inner_html: Seq<char>, tags: Regex) -> Result<
    Seq<char>,
    ParseError,
> {
    spec_decoded_text(
        spec_name_of_pieces(pieces_of(tags, spec_replace(inner_html, "<br>"@, " "@))),
    )
}

/// Reads the name of a meal from the markup inside its name element.
pub fn meal_name(inner_html: &str, tags: &Regex) -> (name: Result<String, ParseError>)
    ensures
        ok_view(name) == spec_meal_name(inner_html@, *tags),
{
    let html = chars_of(inner_html);
    let line_break = chars_of("<br>");
    let space = chars_of(" ");
    let unbroken = string_of(&replace_chars(&html, &line_break, &space));
    let pieces = split_by_pattern(tags, unbroken.as_str());
    let name = name_of_pieces(&pieces);
    decoded_text(name.as_str())
}

} // verus!
