//! Copying a card's command: which text is copied, by which way, and what the
//! attempt came to.
//!
//! The system clipboard and the terminal are outside: a copy is a sequence of
//! steps, each of which names the attempt to make next, given how the last one
//! went.

use base64::Engine;
use vstd::prelude::*;

use crate::model::Item;
use crate::text::copy_of;

verus! {

/// The longest base64 payload sent through an OSC 52 escape. tmux truncates
/// payloads of about 74 KB; this stays below.
pub const OSC52_MAX_BASE64_BYTES: usize = 70_000;

/// What an attempt to copy came to.
#[derive(Clone, Copy, Debug, PartialEq, Eq, Structural)]
pub enum CopyOutcome {
    /// The system clipboard took the text.
    CopiedSystem,
    /// The system clipboard did not; an OSC 52 escape was sent instead.
    CopiedOsc52,
    /// The card has no code.
    NoCandidates,
    /// The card has several pieces of code; nothing was copied.
    Ambiguous(usize),
    /// Neither way worked.
    Failed,
    /// The text is too long for an OSC 52 escape.
    TooLarge,
}

/// What to do to copy.
#[derive(Debug, PartialEq, Eq)]
pub enum CopyStep {
    /// Nothing more: this is the outcome.
    Done(CopyOutcome),
    /// Offer the text to the system clipboard, and to the primary selection
    /// too where `primary` says so.
    TrySystem { text: String, primary: bool },
}

/// What to do once the system clipboard was tried.
#[derive(Debug, PartialEq, Eq)]
pub enum FallbackStep {
    /// Nothing more: this is the outcome.
    Done(CopyOutcome),
    /// Write the escape sequence for the clipboard to the terminal, then the
    /// one for the primary selection, if any.
    Emit { clipboard: String, primary: Option<String> },
}

// ----- Which text ------------------------------------------------------

/// The pieces of code of a card that a copy chooses among: its fenced blocks,
/// or, where it has none, its inline code.
pub open spec fn code_candidates(item: Item) -> Seq<String> {
    if item.code_blocks@.len() > 0 {
        item.code_blocks@
    } else {
        item.code_spans@
    }
}

/// The card's one piece of code, where it has exactly one.
pub open spec fn sole_code(item: Item) -> Option<Seq<char>> {
    if code_candidates(item).len() == 1 {
        Some(code_candidates(item)[0]@)
    } else {
        None
    }
}

/// The pieces of code of a card that a copy chooses among.
pub fn candidates(item: &Item) -> (r: &Vec<String>)
    ensures
        r@ == code_candidates(*item),
{
    if item.code_blocks.len() > 0 {
        &item.code_blocks
    } else {
        &item.code_spans
    }
}

impl CopyStep {
    /// The step offers `text` to the system clipboard.
    pub open spec fn tries(self, text: Seq<char>, primary: bool) -> bool {
        self matches CopyStep::TrySystem { text: t, primary: p } && t@ == text && p == primary
    }
}

/// Begins to copy the card's one piece of code. With none, or with several,
/// nothing is copied.
pub fn copy_item_code(item: &Item, primary: bool) -> (r: CopyStep)
    ensures
        code_candidates(*item).len() == 0 ==> r == CopyStep::Done(CopyOutcome::NoCandidates),
        code_candidates(*item).len() == 1 ==> r.tries(code_candidates(*item)[0]@, primary),
        code_candidates(*item).len() == 1 ==> (r matches CopyStep::TrySystem { text, primary: p }
            && text@ == code_candidates(*item)[0]@ && p == primary),
        code_candidates(*item).len() > 1 ==> r == CopyStep::Done(
            CopyOutcome::Ambiguous(code_candidates(*item).len() as usize),
        ),
{
    let found = candidates(item);
    if found.len() == 0 {
        CopyStep::Done(CopyOutcome::NoCandidates)
    } else if found.len() == 1 {
        copy_specific(found[0].as_str(), primary)
    } else {
        CopyStep::Done(CopyOutcome::Ambiguous(found.len()))
    }
}

/// Begins to copy exactly `text`.
pub fn copy_specific(text: &str, primary: bool) -> (r: CopyStep)
    ensures
        r.tries(text@, primary),
        r matches CopyStep::TrySystem { text: t, primary: p } && t@ == text@ && p == primary,
{
    CopyStep::TrySystem { text: copy_of(text), primary }
}

// ----- OSC 52 ----------------------------------------------------------

/// What base64's standard engine makes of `bytes`.
pub uninterp spec fn base64_text(bytes: Seq<u8>) -> Seq<char>;

/// The length of `n` bytes in padded base64.
pub open spec fn base64_len(n: nat) -> nat {
    4 * ((n + 2) / 3)
}

/// A character of padded base64.
pub open spec fn base64_char(c: char) -> bool {
    ||| 'A' <= c && c <= 'Z'
    ||| 'a' <= c && c <= 'z'
    ||| '0' <= c && c <= '9'
    ||| c == '+'
    ||| c == '/'
    ||| c == '='
}

/// `base64::engine::general_purpose::STANDARD.encode`: the base64 text of
/// `bytes`, padded. It has four characters for every three bytes begun, each
/// from the standard alphabet or the padding character. The result has to be
/// one that memory can hold.
#[verifier::external_body]
fn encode_base64(bytes: &[u8]) -> (r: String)
    requires
        base64_len(bytes@.len()) <= isize::MAX,
    ensures
        r@ == base64_text(bytes@),
        r@.len() == base64_len(bytes@.len()),
        forall|i: int| 0 <= i < r@.len() ==> base64_char(#[trigger] r@[i]),
{
    base64::engine::general_purpose::STANDARD.encode(bytes)
}

/// The OSC 52 escape that carries `payload` to the given selection.
pub open spec fn osc52_escape(payload: Seq<char>, selection: char) -> Seq<char> {
    "\x1b]52;"@.push(selection) + ";"@ + payload + "\x07"@
}

/// `text` is short enough for an OSC 52 escape.
pub open spec fn fits_osc52(text: Seq<char>) -> bool {
    base64_len(vstd::utf8::encode_utf8(text).len()) <= OSC52_MAX_BASE64_BYTES
}

/// The escape that carries a payload.
pub fn frame_osc52(payload: &str, selection: char) -> (r: String)
    ensures
        r@ == osc52_escape(payload@, selection),
{
    let mut out = copy_of("\x1b]52;");
    out.push(selection);
    out.concat(";").concat(payload).concat("\x07")
}

/// The escape sequence that writes `text` to a selection (`c` for the
/// clipboard, `p` for the primary selection), or `None` if the payload exceeds
/// the size limit.
pub fn osc52_sequence(text: &str, selection: char) -> (r: Option<String>)
    ensures
        r is Some == fits_osc52(text@),
        r matches Some(s) ==> s@ == osc52_escape(
            base64_text(vstd::utf8::encode_utf8(text@)),
            selection,
        ),
        r is Some ==> forall|i: int|
            0 <= i < base64_text(vstd::utf8::encode_utf8(text@)).len() ==> base64_char(
                #[trigger] base64_text(vstd::utf8::encode_utf8(text@))[i],
            ),
{
    let bytes = text.as_bytes();
    // Beyond this many bytes the payload exceeds the limit; encoding is spared.
    if bytes.len() > 60_000 {
        return None;
    }
    let payload = encode_base64(bytes);
    let length: usize = payload.as_str().unicode_len();
    if length <= OSC52_MAX_BASE64_BYTES {
        Some(frame_osc52(payload.as_str(), selection))
    } else {
        None
    }
}

// ----- The steps -------------------------------------------------------

impl FallbackStep {
    /// The step writes the escapes for `text`: for the clipboard, and for the
    /// primary selection where `primary` says so.
    pub open spec fn emits(self, text: Seq<char>, primary: bool) -> bool {
        let payload = base64_text(vstd::utf8::encode_utf8(text));
        match self {
            FallbackStep::Done(_) => false,
            FallbackStep::Emit { clipboard, primary: second } => {
                &&& clipboard@ == osc52_escape(payload, 'c')
                &&& second is Some == primary
                &&& second matches Some(s) ==> s@ == osc52_escape(payload, 'p')
            },
        }
    }
}

/// After the system clipboard was offered `text`: done where it took it;
/// otherwise the terminal gets the text by OSC 52, unless it is too long.
pub fn after_system_copy(text: &str, primary: bool, copied: bool) -> (r: FallbackStep)
    ensures
        copied ==> r == FallbackStep::Done(CopyOutcome::CopiedSystem),
        !copied && !fits_osc52(text@) ==> r == FallbackStep::Done(CopyOutcome::TooLarge),
        !copied && fits_osc52(text@) ==> r.emits(text@, primary),
        !copied && fits_osc52(text@) ==> (r matches FallbackStep::Emit { clipboard, primary: second }
            && clipboard@ == osc52_escape(base64_text(vstd::utf8::encode_utf8(text@)), 'c')
            && second is Some == primary && (primary ==> (second->0)@ == osc52_escape(
            base64_text(vstd::utf8::encode_utf8(text@)),
            'p',
        ))),
{
    if copied {
        return FallbackStep::Done(CopyOutcome::CopiedSystem);
    }
    match osc52_sequence(text, 'c') {
        None => FallbackStep::Done(CopyOutcome::TooLarge),
        Some(clipboard) => FallbackStep::Emit {
            clipboard,
            primary: if primary {
                osc52_sequence(text, 'p')
            } else {
                None
            },
        },
    }
}

/// After the escapes were written: whether the one for the clipboard got out
/// decides.
pub fn after_osc52(clipboard_written: bool) -> (r: CopyOutcome)
    ensures
        r == if clipboard_written {
            CopyOutcome::CopiedOsc52
        } else {
            CopyOutcome::Failed
        },
{
    if clipboard_written {
        CopyOutcome::CopiedOsc52
    } else {
        CopyOutcome::Failed
    }
}

// ----- Laws ------------------------------------------------------------

/// A payload of base64 characters cannot end its escape early: between the
/// first and the last character of the sequence there is neither an ESC nor a
/// BEL.
pub proof fn law_escape_is_closed_only_at_its_end(payload: Seq<char>, selection: char)
    requires
        forall|i: int| 0 <= i < payload.len() ==> base64_char(#[trigger] payload[i]),
        selection == 'c' || selection == 'p',
    ensures
        osc52_escape(payload, selection).first() == '\x1b',
        osc52_escape(payload, selection).last() == '\x07',
        forall|i: int|
            0 < i < osc52_escape(payload, selection).len() - 1 ==> {
                let c = #[trigger] osc52_escape(payload, selection)[i];
                c != '\x1b' && c != '\x07'
            },
{
    reveal_strlit("\x1b]52;");
    reveal_strlit(";");
    reveal_strlit("\x07");
    let s = osc52_escape(payload, selection);
    assert forall|i: int| 0 < i < s.len() - 1 implies (#[trigger] s[i] != '\x1b' && s[i]
        != '\x07') by {
        if 7 <= i < 7 + payload.len() {
            assert(s[i] == payload[i - 7]);
        }
    }
}

} // verus!
