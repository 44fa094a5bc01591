//! The form in which a text goes to the clipboard.

use vstd::prelude::*;

use crate::text;

verus! {

/// Clipboard format of UTF-16 text.
pub const CF_UNICODE_TEXT: u32 = 13;

/// Why a text did not reach the clipboard. `detail` is the system's own words.
#[derive(Debug)]
pub enum ClipboardError {
    ContainsNul,
    NotCopied { detail: String },
}

impl ClipboardError {
    pub open spec fn text(self) -> Seq<char> {
        match self {
            ClipboardError::ContainsNul => "clipboard text contains a NUL character"@,
            ClipboardError::NotCopied { detail } => "クリップボードへコピーできません: "@ + detail@,
        }
    }

    pub fn message(&self) -> (message: String)
        ensures
            message@ == self.text(),
    {
        match self {
            ClipboardError::ContainsNul => "clipboard text contains a NUL character".to_owned(),
            ClipboardError::NotCopied { detail } =>
            "クリップボードへコピーできません: ".to_owned().concat(detail),
        }
    }
}

/// The units to hand over for a text, closed by a zero. A text that holds a zero itself is
/// refused: what follows it would be lost.
pub fn clipboard_units(content: &str) -> (result: Result<Vec<u16>, ClipboardError>)
    ensures
        content@.contains('\0') ==> result == Err::<Vec<u16>, ClipboardError>(
            ClipboardError::ContainsNul,
        ),
        !content@.contains('\0') ==> (result matches Ok(units) && units@ == text::utf16(
            content@,
        ).push(0)),
{
    let chars = text::chars_of(content);
    for i in 0..chars.len()
        invariant
            chars@ == content@,
            forall|j: int| 0 <= j < i ==> content@[j] != '\0',
    {
        if chars[i] == '\0' {
            assert(content@[i as int] == '\0');
            return Err(ClipboardError::ContainsNul);
        }
    }
    let mut units: Vec<u16> = Vec::new();
    text::push_utf16(&mut units, content);
    units.push(0);
    assert(units@ =~= text::utf16(content@).push(0));
    Ok(units)
}

/// Takes the clipboard's answer to the units of a text.
pub fn copied(answer: Result<(), String>) -> (result: Result<(), ClipboardError>)
    ensures
        answer is Ok ==> result is Ok,
        answer matches Err(detail) ==> result == Err::<(), ClipboardError>(
            ClipboardError::NotCopied { detail },
        ),
{
    match answer {
        Ok(_) => Ok(()),
        Err(detail) => Err(ClipboardError::NotCopied { detail }),
    }
}

/// The memory that units take, where that can be expressed.
pub fn byte_len(units: usize) -> (bytes: Option<usize>)
    ensures
        bytes is Some == (units * 2 <= usize::MAX),
        bytes matches Some(bytes) ==> bytes == units * 2,
{
    units.checked_mul(2)
}

/// What the clipboard is handed reads back as the text, up to the closing zero.
pub proof fn law_a_copied_text_reads_back(content: Seq<char>)
    ensures
        text::utf16_text(text::utf16(content).push(0).drop_last()) == content,
{
    text::law_utf16_keeps_a_text(content);
    assert(text::utf16(content).push(0).drop_last() =~= text::utf16(content));
}

} // verus!
