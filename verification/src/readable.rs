//! The bodies that are handed to the reader of Atom documents, and the check
//! that tells them from the others.
//!
//! The reader of `feed_rs` reads more than Atom. On RSS documents it takes
//! contact texts and the durations of podcast extensions apart, and under the
//! Media RSS namespace it reads play times, with code that ends the process on
//! some texts: a number too long for sixty-four bits, a digit outside ASCII, an
//! address beside a character of several bytes. No RSS document has an
//! identifier of its own, so none can become a canonical feed in any case. The
//! engine therefore hands the reader a body only where it is plainly an Atom
//! document in UTF-8 that does not name the Media RSS namespace, and answers
//! for every other body itself.

use vstd::prelude::*;
use vstd::string::StringSliceAdditionalSpecFns;
use vstd::utf8::encode_utf8;

verus! {

/// The bytes of XML's markup that the check looks for one by one.
pub const LESS_THAN: u8 = 0x3c;

pub const GREATER_THAN: u8 = 0x3e;

pub const QUESTION_MARK: u8 = 0x3f;

pub const SPACE: u8 = 0x20;

pub const TAB: u8 = 0x09;

pub const LINE_FEED: u8 = 0x0a;

pub const CARRIAGE_RETURN: u8 = 0x0d;

/// The longest body that is read, in bytes. The reader counts the depth of
/// elements in thirty-two bits; a body of this length cannot nest deeper than
/// such a count holds.
pub const LONGEST_BODY: usize = 0x7fff_ffff;

/// Whether the word stands in the bytes at the given place.
pub open spec fn holds_at(bytes: Seq<u8>, at: int, word: Seq<u8>) -> bool {
    &&& 0 <= at
    &&& at + word.len() <= bytes.len()
    &&& forall|j: int| 0 <= j < word.len() ==> #[trigger] word[j] == bytes[at + j]
}

/// Whether a byte is white space of XML.
pub open spec fn is_space(byte: u8) -> bool {
    byte == SPACE || byte == TAB || byte == LINE_FEED || byte == CARRIAGE_RETURN
}

/// Whether, after the given number of bytes has been read, the place is inside
/// a processing instruction: behind a `<?` that no `?>` has closed yet.
pub open spec fn inside_instruction(bytes: Seq<u8>, read: int) -> bool
    decreases read,
{
    if read < 2 || read > bytes.len() {
        false
    } else if bytes[read - 2] == LESS_THAN && bytes[read - 1] == QUESTION_MARK {
        true
    } else if bytes[read - 2] == QUESTION_MARK && bytes[read - 1] == GREATER_THAN {
        false
    } else {
        inside_instruction(bytes, read - 1)
    }
}

/// Whether the byte at the given place can stand before the root element:
/// white space, or a byte of a processing instruction, its `<?` and `?>`
/// included.
pub open spec fn prolog_byte(bytes: Seq<u8>, at: int) -> bool {
    ||| is_space(bytes[at])
    ||| inside_instruction(bytes, at)
    ||| (bytes[at] == LESS_THAN && at + 1 < bytes.len() && bytes[at + 1] == QUESTION_MARK)
    ||| (bytes[at] == QUESTION_MARK && at >= 1 && bytes[at - 1] == LESS_THAN)
}

/// Whether the start tag of an element named `feed`, without a prefix, stands
/// at the given place.
pub open spec fn atom_root_at(bytes: Seq<u8>, at: int) -> bool {
    ||| holds_at(bytes, at, "<feed ".spec_bytes())
    ||| holds_at(bytes, at, "<feed>".spec_bytes())
    ||| holds_at(bytes, at, "<feed\n".spec_bytes())
    ||| holds_at(bytes, at, "<feed\r".spec_bytes())
    ||| holds_at(bytes, at, "<feed\t".spec_bytes())
    ||| holds_at(bytes, at, "<feed/".spec_bytes())
}

/// Whether the root element is `feed`: its start tag is the first thing in the
/// body but for white space and processing instructions.
pub open spec fn opens_with_atom_root(bytes: Seq<u8>) -> bool {
    exists|root: int|
        0 <= root < bytes.len() && #[trigger] atom_root_at(bytes, root) && !inside_instruction(
            bytes,
            root,
        ) && forall|i: int| 0 <= i < root ==> #[trigger] prolog_byte(bytes, i)
}

/// Whether an encoding is declared at the given place, and is UTF-8 written in
/// one of the four usual ways.
pub open spec fn declares_utf8_at(bytes: Seq<u8>, at: int) -> bool {
    ||| holds_at(bytes, at, "encoding=\"UTF-8\"".spec_bytes())
    ||| holds_at(bytes, at, "encoding=\"utf-8\"".spec_bytes())
    ||| holds_at(bytes, at, "encoding='UTF-8'".spec_bytes())
    ||| holds_at(bytes, at, "encoding='utf-8'".spec_bytes())
}

/// Whether something begins at the given place for which the body is not read:
/// a processing instruction that is closed as soon as it is opened, the name of
/// the Media RSS namespace, or, inside a processing instruction, the word
/// `encoding` with anything behind it but a declaration of UTF-8.
pub open spec fn fault_at(bytes: Seq<u8>, at: int) -> bool {
    ||| holds_at(bytes, at, "<?>".spec_bytes())
    ||| holds_at(bytes, at, "http://search.yahoo.com/mrss/".spec_bytes())
    ||| (inside_instruction(bytes, at) && holds_at(bytes, at, "encoding".spec_bytes())
        && !declares_utf8_at(bytes, at))
}

/// Whether the bytes are plainly an Atom document in UTF-8: not longer than
/// `LONGEST_BODY`, with `feed` as the root element, and without a fault at any
/// place.
pub open spec fn plain_atom(bytes: Seq<u8>) -> bool {
    &&& bytes.len() <= LONGEST_BODY
    &&& opens_with_atom_root(bytes)
    &&& forall|at: int| 0 <= at < bytes.len() ==> !#[trigger] fault_at(bytes, at)
}

/// Whether a body is handed to the reader: its bytes in UTF-8 are plainly an
/// Atom document.
pub open spec fn readable(body: Seq<char>) -> bool {
    plain_atom(encode_utf8(body))
}

/// Whether the word stands in the bytes at the given place.
fn starts_at(bytes: &[u8], at: usize, word: &[u8]) -> (found: bool)
    ensures
        found == holds_at(bytes@, at as int, word@),
{
    if word.len() > bytes.len() || at > bytes.len() - word.len() {
        return false;
    }
    let mut j: usize = 0;
    while j < word.len()
        invariant
            j <= word.len(),
            at + word.len() <= bytes.len(),
            forall|k: int| 0 <= k < j ==> #[trigger] word@[k] == bytes@[at + k],
        decreases word.len() - j,
    {
        if bytes[at + j] != word[j] {
            return false;
        }
        j += 1;
    }
    true
}

/// Whether the word, in UTF-8, stands in the bytes at the given place.
fn word_at(bytes: &[u8], at: usize, word: &str) -> (found: bool)
    ensures
        found == holds_at(bytes@, at as int, word.spec_bytes()),
{
    starts_at(bytes, at, word.as_bytes())
}

/// Whether the place is inside a processing instruction once the byte at `at`
/// has been read, given whether it was so before.
fn inside_after(bytes: &[u8], at: usize, inside: bool) -> (after: bool)
    requires
        at < bytes@.len(),
        inside == inside_instruction(bytes@, at as int),
    ensures
        after == inside_instruction(bytes@, at + 1),
{
    if at == 0 {
        false
    } else if bytes[at - 1] == LESS_THAN && bytes[at] == QUESTION_MARK {
        true
    } else if bytes[at - 1] == QUESTION_MARK && bytes[at] == GREATER_THAN {
        false
    } else {
        inside
    }
}

/// Whether the start tag of the root element `feed` stands at the given place.
fn root_at(bytes: &[u8], at: usize) -> (found: bool)
    ensures
        found == atom_root_at(bytes@, at as int),
{
    word_at(bytes, at, "<feed ") || word_at(bytes, at, "<feed>") || word_at(bytes, at, "<feed\n")
        || word_at(bytes, at, "<feed\r") || word_at(bytes, at, "<feed\t") || word_at(
        bytes,
        at,
        "<feed/",
    )
}

/// Whether the byte at the given place can stand before the root element.
fn in_prolog(bytes: &[u8], at: usize, inside: bool) -> (fits: bool)
    requires
        at < bytes@.len(),
        inside == inside_instruction(bytes@, at as int),
    ensures
        fits == prolog_byte(bytes@, at as int),
{
    let byte = bytes[at];
    let space = byte == SPACE || byte == TAB || byte == LINE_FEED || byte == CARRIAGE_RETURN;
    let opens = byte == LESS_THAN && at + 1 < bytes.len() && bytes[at + 1] == QUESTION_MARK;
    let opened = byte == QUESTION_MARK && at >= 1 && bytes[at - 1] == LESS_THAN;
    space || inside || opens || opened
}

/// Whether the root element is `feed`.
fn opens_with_root(bytes: &[u8]) -> (found: bool)
    requires
        bytes@.len() <= LONGEST_BODY,
    ensures
        found == opens_with_atom_root(bytes@),
{
    let mut at: usize = 0;
    let mut inside = false;
    while at < bytes.len()
        invariant
            at <= bytes@.len(),
            bytes@.len() <= LONGEST_BODY,
            inside == inside_instruction(bytes@, at as int),
            forall|i: int| 0 <= i < at ==> #[trigger] prolog_byte(bytes@, i),
            forall|i: int|
                0 <= i < at ==> !(#[trigger] atom_root_at(bytes@, i) && !inside_instruction(
                    bytes@,
                    i,
                )),
        decreases bytes@.len() - at,
    {
        if !inside && root_at(bytes, at) {
            return true;
        }
        if !in_prolog(bytes, at, inside) {
            return false;
        }
        inside = inside_after(bytes, at, inside);
        at += 1;
    }
    false
}

/// Whether a fault begins at the given place.
fn faulty_at(bytes: &[u8], at: usize, inside: bool) -> (faulty: bool)
    requires
        inside == inside_instruction(bytes@, at as int),
    ensures
        faulty == fault_at(bytes@, at as int),
{
    if word_at(bytes, at, "<?>") || word_at(bytes, at, "http://search.yahoo.com/mrss/") {
        return true;
    }
    if inside && word_at(bytes, at, "encoding") {
        let utf8 = word_at(bytes, at, "encoding=\"UTF-8\"") || word_at(
            bytes,
            at,
            "encoding=\"utf-8\"",
        ) || word_at(bytes, at, "encoding='UTF-8'") || word_at(bytes, at, "encoding='utf-8'");
        return !utf8;
    }
    false
}

/// Whether no fault begins at any place.
fn without_fault(bytes: &[u8]) -> (clean: bool)
    requires
        bytes@.len() <= LONGEST_BODY,
    ensures
        clean == (forall|at: int| 0 <= at < bytes@.len() ==> !#[trigger] fault_at(bytes@, at)),
{
    let mut at: usize = 0;
    let mut inside = false;
    while at < bytes.len()
        invariant
            at <= bytes@.len(),
            bytes@.len() <= LONGEST_BODY,
            inside == inside_instruction(bytes@, at as int),
            forall|i: int| 0 <= i < at ==> !#[trigger] fault_at(bytes@, i),
        decreases bytes@.len() - at,
    {
        if faulty_at(bytes, at, inside) {
            return false;
        }
        inside = inside_after(bytes, at, inside);
        at += 1;
    }
    true
}

/// Whether a body is handed to the reader: `readable` of it.
pub fn is_readable(body: &str) -> (plain: bool)
    ensures
        plain == readable(body@),
{
    let bytes = body.as_bytes();
    bytes.len() <= LONGEST_BODY && opens_with_root(bytes) && without_fault(bytes)
}

} // verus!
