use vstd::prelude::*;
use vstd::slice::slice_subrange;

use crate::bytes::{find_byte, first_of, glob_count};
use crate::types::{
    has_glob, has_multiple_globs, Fetch, Instruction, InstructionView, Mode, Operation, Push, Shape,
};

verus! {

/// The marker of a forced refspec, `+`.
pub const FORCE_MARKER: u8 = 43;

/// The marker of a negative refspec, `^`.
pub const NEGATIVE_MARKER: u8 = 94;

/// The separator of source and destination, `:`.
pub const SEPARATOR: u8 = 58;

/// Why a refspec could not be compiled.
#[derive(PartialEq, Eq, Structural, Copy, Clone, Debug)]
pub enum ParseError {
    /// The source, or a destination that follows a `:`, is empty.
    EmptyPattern,
    /// A pattern holds more than one `*`.
    MultipleGlobs,
    /// One side holds a `*` and the other does not, or there is no other side.
    GlobCountMismatch,
    /// A negative refspec names a destination.
    NegativeWithDestination,
    /// A refspec is marked both forced and negative.
    ForceNegativeConflict,
    /// A pattern holds a byte that no ref name may hold.
    InvalidRefNameBytes,
}

/// Whether the refspec starts with a force marker, alone or after a
/// negative marker.
pub open spec fn force_marked(raw: Seq<u8>) -> bool {
    (raw.len() > 0 && raw[0] == FORCE_MARKER) || (raw.len() > 1 && raw[0] == NEGATIVE_MARKER
        && raw[1] == FORCE_MARKER)
}

/// Whether the refspec starts with a negative marker, alone or after a
/// force marker.
pub open spec fn negative_marked(raw: Seq<u8>) -> bool {
    (raw.len() > 0 && raw[0] == NEGATIVE_MARKER) || (raw.len() > 1 && raw[0] == FORCE_MARKER
        && raw[1] == NEGATIVE_MARKER)
}

/// The refspec without its leading markers.
pub open spec fn body_of(raw: Seq<u8>) -> Seq<u8> {
    let n = (if force_marked(raw) { 1int } else { 0int }) + (if negative_marked(raw) {
        1int
    } else {
        0int
    });
    raw.subrange(n, raw.len() as int)
}

/// The source segment: the body up to its first `:`.
pub open spec fn source_of(raw: Seq<u8>) -> Seq<u8> {
    let body = body_of(raw);
    match first_of(body, SEPARATOR) {
        Some(c) => body.subrange(0, c),
        None => body,
    }
}

/// The destination segment: what follows the first `:`, if there is one.
pub open spec fn destination_of(raw: Seq<u8>) -> Option<Seq<u8>> {
    let body = body_of(raw);
    match first_of(body, SEPARATOR) {
        Some(c) => Some(body.subrange(c + 1, body.len() as int)),
        None => None,
    }
}

/// The bytes that no ref name may hold: control bytes, space, `~`, `^`,
/// `:`, `?`, `[` and `\`.
pub open spec fn is_invalid_ref_byte(b: u8) -> bool {
    b < 32 || b == 127 || b == 32 || b == 126 || b == 94 || b == 58 || b == 63 || b == 91 || b
        == 92
}

/// Whether every byte of `s` may stand in a ref name or pattern.
pub open spec fn valid_ref_bytes(s: Seq<u8>) -> bool {
    forall|i: int| 0 <= i < s.len() ==> !is_invalid_ref_byte(#[trigger] s[i])
}

/// What compiling `raw` for `operation` yields.
///
/// The rules are tried in this order: conflicting markers, a destination on
/// a negative refspec, empty segments, bytes that no ref name holds, more
/// than one `*` in a segment, and a `*` on one side only.
pub open spec fn compiled(raw: Seq<u8>, operation: Operation) -> Result<
    InstructionView,
    ParseError,
> {
    let force = force_marked(raw);
    let negative = negative_marked(raw);
    let src = source_of(raw);
    let dest = destination_of(raw);
    if force && negative {
        Err(ParseError::ForceNegativeConflict)
    } else if negative && dest is Some {
        Err(ParseError::NegativeWithDestination)
    } else if src.len() == 0 || (dest matches Some(d) && d.len() == 0) {
        Err(ParseError::EmptyPattern)
    } else if !valid_ref_bytes(src) || (dest matches Some(d) && !valid_ref_bytes(d)) {
        Err(ParseError::InvalidRefNameBytes)
    } else if has_multiple_globs(src) || (dest matches Some(d) && has_multiple_globs(d)) {
        Err(ParseError::MultipleGlobs)
    } else if negative {
        Ok(
            InstructionView {
                operation,
                shape: if has_glob(src) {
                    Shape::ExcludeGlob
                } else {
                    Shape::ExcludeLiteral
                },
                src,
                dest: None,
                allow_non_fast_forward: false,
            },
        )
    } else {
        match dest {
            None => if has_glob(src) {
                Err(ParseError::GlobCountMismatch)
            } else {
                Ok(
                    InstructionView {
                        operation,
                        shape: Shape::Literal,
                        src,
                        dest: if operation == Operation::Push {
                            Some(src)
                        } else {
                            None
                        },
                        allow_non_fast_forward: operation == Operation::Push && force,
                    },
                )
            },
            Some(d) => if has_glob(src) != has_glob(d) {
                Err(ParseError::GlobCountMismatch)
            } else {
                Ok(
                    InstructionView {
                        operation,
                        shape: if has_glob(src) {
                            Shape::GlobToGlob
                        } else {
                            Shape::LiteralToLiteral
                        },
                        src,
                        dest: Some(d),
                        allow_non_fast_forward: force,
                    },
                )
            },
        }
    }
}

/// A negative refspec that names a destination is refused for naming it,
/// unless it is marked forced as well.
pub proof fn lemma_negative_with_destination(raw: Seq<u8>, operation: Operation)
    requires
        negative_marked(raw),
        !force_marked(raw),
        destination_of(raw) is Some,
    ensures
        compiled(raw, operation) == Err::<InstructionView, ParseError>(
            ParseError::NegativeWithDestination,
        ),
{
}

/// A refspec whose source holds two `*` is refused for holding multiple
/// globs, wherever the rules tried before that one let it through.
pub proof fn lemma_multiple_globs_in_source(raw: Seq<u8>, operation: Operation)
    requires
        !(force_marked(raw) && negative_marked(raw)),
        !(negative_marked(raw) && destination_of(raw) is Some),
        valid_ref_bytes(source_of(raw)),
        destination_of(raw) matches Some(d) ==> d.len() > 0 && valid_ref_bytes(d),
        has_multiple_globs(source_of(raw)),
    ensures
        compiled(raw, operation) == Err::<InstructionView, ParseError>(ParseError::MultipleGlobs),
{
}

/// The mode that the leading markers of `raw` ask for.
pub open spec fn mode_of(raw: Seq<u8>) -> Mode {
    if negative_marked(raw) {
        Mode::Negative
    } else if force_marked(raw) {
        Mode::Force
    } else {
        Mode::Normal
    }
}

/// Reads the leading markers of a refspec: the mode they ask for, and where
/// the rest of the refspec starts.
pub fn resolve_mode(raw: &[u8]) -> (r: Result<(Mode, usize), ParseError>)
    ensures
        match r {
            Ok((mode, start)) => !(force_marked(raw@) && negative_marked(raw@)) && mode == mode_of(
                raw@,
            ) && start <= raw@.len() && raw@.subrange(start as int, raw@.len() as int)
                == body_of(raw@),
            Err(e) => force_marked(raw@) && negative_marked(raw@) && e
                == ParseError::ForceNegativeConflict,
        },
{
    let n = raw.len();
    let force = (n > 0 && raw[0] == FORCE_MARKER) || (n > 1 && raw[0] == NEGATIVE_MARKER && raw[1]
        == FORCE_MARKER);
    let negative = (n > 0 && raw[0] == NEGATIVE_MARKER) || (n > 1 && raw[0] == FORCE_MARKER
        && raw[1] == NEGATIVE_MARKER);
    if force && negative {
        Err(ParseError::ForceNegativeConflict)
    } else if negative {
        Ok((Mode::Negative, 1))
    } else if force {
        Ok((Mode::Force, 1))
    } else {
        Ok((Mode::Normal, 0))
    }
}

/// Whether every byte of `s` may stand in a ref name or pattern.
fn check_ref_bytes(s: &[u8]) -> (r: bool)
    ensures
        r == valid_ref_bytes(s@),
{
    let mut i: usize = 0;
    while i < s.len()
        invariant
            i <= s@.len(),
            forall|k: int| 0 <= k < i ==> !is_invalid_ref_byte(#[trigger] s@[k]),
        decreases s@.len() - i,
    {
        let b = s[i];
        if b < 32 || b == 127 || b == 32 || b == 126 || b == 94 || b == 58 || b == 63 || b == 91
            || b == 92 {
            return false;
        }
        i = i + 1;
    }
    true
}

/// Compiles the refspec `raw` into an instruction for `operation`.
///
/// A leading `+` forces the update, a leading `^` makes the refspec
/// negative, and a `:` separates source from destination.
pub fn compile<'a>(raw: &'a [u8], operation: Operation) -> (r: Result<Instruction<'a>, ParseError>)
    ensures
        match r {
            Ok(i) => compiled(raw@, operation) == Ok::<InstructionView, ParseError>(i@) && i.wf(),
            Err(e) => compiled(raw@, operation) == Err::<InstructionView, ParseError>(e),
        },
{
    let n = raw.len();
    let (mode, start) = match resolve_mode(raw) {
        Ok(found) => found,
        Err(e) => return Err(e),
    };
    let force = mode == Mode::Force;
    let negative = mode == Mode::Negative;
    let body = slice_subrange(raw, start, n);
    assert(body@ == body_of(raw@));
    let (src, dest) = match find_byte(body, SEPARATOR) {
        Some(c) => (slice_subrange(body, 0, c), Some(slice_subrange(body, c + 1, body.len()))),
        None => (body, None),
    };
    assert(src@ == source_of(raw@));
    assert(dest matches Some(d) ==> destination_of(raw@) == Some(d@));
    assert(dest is None ==> destination_of(raw@) is None);
    if negative && dest.is_some() {
        return Err(ParseError::NegativeWithDestination);
    }
    let dest_empty = match dest {
        Some(d) => d.len() == 0,
        None => false,
    };
    if src.len() == 0 || dest_empty {
        return Err(ParseError::EmptyPattern);
    }
    let dest_valid = match dest {
        Some(d) => check_ref_bytes(d),
        None => true,
    };
    if !check_ref_bytes(src) || !dest_valid {
        return Err(ParseError::InvalidRefNameBytes);
    }
    let src_globs = glob_count(src);
    let dest_globs = match dest {
        Some(d) => glob_count(d),
        None => 0,
    };
    if src_globs == 2 || dest_globs == 2 {
        return Err(ParseError::MultipleGlobs);
    }
    if negative {
        if src_globs == 1 {
            return Ok(
                match operation {
                    Operation::Push => Instruction::Push(Push::ExcludeMultipleWithGlob { src }),
                    Operation::Fetch => Instruction::Fetch(Fetch::ExcludeMultipleWithGlob { src }),
                },
            );
        } else {
            return Ok(
                match operation {
                    Operation::Push => Instruction::Push(Push::ExcludeSingle { src }),
                    Operation::Fetch => Instruction::Fetch(Fetch::ExcludeSingle { src }),
                },
            );
        }
    }
    match dest {
        None => {
            if src_globs == 1 {
                Err(ParseError::GlobCountMismatch)
            } else {
                Ok(
                    match operation {
                        Operation::Push => Instruction::Push(
                            Push::SingleMatching { src_and_dest: src, allow_non_fast_forward: force },
                        ),
                        Operation::Fetch => Instruction::Fetch(Fetch::Only { src }),
                    },
                )
            }
        },
        Some(dest) => {
            if src_globs != dest_globs {
                Err(ParseError::GlobCountMismatch)
            } else if src_globs == 1 {
                Ok(
                    match operation {
                        Operation::Push => Instruction::Push(
                            Push::MultipleWithGlob { src, dest, allow_non_fast_forward: force },
                        ),
                        Operation::Fetch => Instruction::Fetch(
                            Fetch::AndUpdateMultipleWithGlob {
                                src,
                                dest,
                                allow_non_fast_forward: force,
                            },
                        ),
                    },
                )
            } else {
                Ok(
                    match operation {
                        Operation::Push => Instruction::Push(
                            Push::Single { src, dest, allow_non_fast_forward: force },
                        ),
                        Operation::Fetch => Instruction::Fetch(
                            Fetch::AndUpdateSingle { src, dest, allow_non_fast_forward: force },
                        ),
                    },
                )
            }
        },
    }
}

} // verus!
