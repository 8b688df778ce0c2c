//! Trusted declarations for the outside crates that the library's logic
//! calls in the middle of its computations. Each wrapper body only makes the
//! call and converts values; its contract states what the outside source
//! promises, and no more.

use vstd::prelude::*;

verus! {

/// The slug that `slug::slugify` derives from a string: a pure function of
/// the characters alone.
pub uninterp spec fn slug_of(title: Seq<char>) -> Seq<char>;

pub open spec fn slug_char(c: char) -> bool {
    ('a' <= c && c <= 'z') || ('0' <= c && c <= '9') || c == '-'
}

/// Relies on slug::slugify: the result consists of a-z, 0-9 and '-' only,
/// never starts or ends with '-', and never holds two '-' in a row.
#[verifier::external_body]
pub fn slugify(title: &str) -> (r: String)
    ensures
        r@ == slug_of(title@),
        forall|i: int| 0 <= i < r@.len() ==> slug_char(#[trigger] r@[i]),
        r@.len() > 0 ==> r@[0] != '-' && r@[r@.len() - 1] != '-',
        forall|i: int| 0 <= i < r@.len() - 1 ==> !((#[trigger] r@[i]) == '-' && r@[i + 1] == '-'),
        title@.len() == 0 ==> r@.len() == 0,
{
    slug::slugify(title)
}

/// Whether `bcrypt::verify` accepts a password against a stored hash: a pure
/// function of the two strings (the salt is read back out of the hash).
pub uninterp spec fn bcrypt_matches(password: Seq<char>, hash: Seq<char>) -> bool;

/// Relies on bcrypt::verify, with a failed or malformed verification treated
/// as a mismatch, as the login flow does.
#[verifier::external_body]
pub fn bcrypt_verify(password: &str, hash: &str) -> (r: bool)
    ensures
        r == bcrypt_matches(password@, hash@),
{
    bcrypt::verify(password, hash).unwrap_or(false)
}

/// Relies on bcrypt::hash at the default cost: the salt is drawn fresh, so
/// nothing is fixed about the hash string itself beyond its length, but any
/// hash it returns verifies against the hashed password.
#[verifier::external_body]
pub fn bcrypt_hash_default(password: &str) -> (r: Option<String>)
    ensures
        r is Some ==> bcrypt_matches(password@, r->Some_0@),
        r is Some ==> r->Some_0@.len() == 60,
{
    bcrypt::hash(password, bcrypt::DEFAULT_COST).ok()
}

/// Relies on chrono's Utc::now with a fixed "%Y-%m-%d %H:%M:%S" format: the
/// wall clock decides the value; only the shape's minimum width is promised.
#[verifier::external_body]
pub fn now_timestamp() -> (r: String)
    ensures
        r@.len() >= 19,
{
    chrono::Utc::now().format("%Y-%m-%d %H:%M:%S").to_string()
}

/// Relies on uuid's Uuid::new_v4 rendered in its hyphenated form: the value
/// is random; the hyphenated form is always 36 characters.
#[verifier::external_body]
pub fn fresh_file_id() -> (r: String)
    ensures
        r@.len() == 36,
{
    uuid::Uuid::new_v4().to_string()
}

/// The HTML that pulldown-cmark renders for a markdown document: a pure
/// function of the input text.
pub uninterp spec fn html_of(markdown: Seq<char>) -> Seq<char>;

/// Relies on pulldown_cmark::html::push_html over a default Parser.
#[verifier::external_body]
pub fn markdown_to_html(markdown: &str) -> (r: String)
    ensures
        r@ == html_of(markdown@),
{
    let parser = pulldown_cmark::Parser::new(markdown);
    let mut html_output = String::new();
    pulldown_cmark::html::push_html(&mut html_output, parser);
    html_output
}

/// Whether lettre can parse a string as a mailbox address: a pure function
/// of the characters.
pub uninterp spec fn mailbox_ok(address: Seq<char>) -> bool;

/// Relies on lettre's Mailbox parser (str::parse::<Mailbox>).
#[verifier::external_body]
pub fn mailbox_parses(address: &str) -> (r: bool)
    ensures
        r == mailbox_ok(address@),
{
    address.parse::<lettre::message::Mailbox>().is_ok()
}

/// Relies on std's String::push: appends exactly one character.
#[verifier::external_body]
pub fn push_char(s: &mut String, c: char)
    ensures
        final(s)@ == old(s)@.push(c),
{
    s.push(c);
}

/// The text that a byte sequence decodes to under UTF-8, if it is valid.
pub uninterp spec fn utf8_of(bytes: Seq<u8>) -> Option<Seq<char>>;

/// Relies on std's str::from_utf8: a pure function of the bytes.
#[verifier::external_body]
pub fn utf8_text(bytes: &Vec<u8>) -> (r: Option<String>)
    ensures
        r is Some <==> utf8_of(bytes@) is Some,
        r is Some ==> r->Some_0@ == utf8_of(bytes@)->Some_0,
{
    match std::str::from_utf8(bytes.as_slice()) {
        Ok(s) => Some(s.to_string()),
        Err(_) => None,
    }
}

} // verus!
