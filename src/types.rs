use vstd::prelude::*;

verus! {

/// The way to interpret a refspec.
#[derive(PartialEq, Eq, Structural, Copy, Clone, Hash, Debug)]
pub enum Mode {
    /// Apply standard rules for refspecs which are including refs with specific rules related to allowing fast forwards of destinations.
    Normal,
    /// Even though according to normal rules a non-fastforward would be denied, override this and reset a ref forcefully in the destination.
    Force,
    /// Instead of considering matching refs included, we consider them excluded. This applies only to the source side of a refspec.
    Negative,
}

/// What operation to perform with the refspec.
#[derive(PartialEq, Eq, Structural, Copy, Clone, Hash, Debug)]
pub enum Operation {
    /// The `src` side is local and the `dst` side is remote.
    Push,
    /// The `src` side is remote and the `dst` side is local.
    Fetch,
}

/// A compiled refspec, borrowing its ref names and patterns from the text it
/// was compiled from.
#[derive(Debug)]
pub enum Instruction<'a> {
    Push(Push<'a>),
    Fetch(Fetch<'a>),
}

#[derive(Debug)]
pub enum Push<'a> {
    /// Push a single ref knowing only one ref name.
    SingleMatching {
        /// The name of the ref to push from `src` to `dest`.
        src_and_dest: &'a [u8],
        /// If true, allow non-fast-forward updates of `dest`.
        allow_non_fast_forward: bool,
    },
    /// Exclude a single ref.
    ExcludeSingle {
        /// A single full ref name to exclude.
        src: &'a [u8],
    },
    /// Exclude multiple refs with single `*` glob.
    ExcludeMultipleWithGlob {
        /// A ref pattern with a single `*`.
        src: &'a [u8],
    },
    /// Push a single ref or refspec to a known destination ref.
    Single {
        /// The source ref or refspec to push.
        src: &'a [u8],
        /// The ref to update with the object from `src`.
        dest: &'a [u8],
        /// If true, allow non-fast-forward updates of `dest`.
        allow_non_fast_forward: bool,
    },
    /// Push a multiple refs to matching destination refs, with exactly a single glob on both sides.
    MultipleWithGlob {
        /// The source ref to match against all refs for pushing.
        src: &'a [u8],
        /// The ref to update with object obtained from `src`, filling in the `*` with the portion that matched in `src`.
        dest: &'a [u8],
        /// If true, allow non-fast-forward updates of `dest`.
        allow_non_fast_forward: bool,
    },
}

#[derive(Debug)]
pub enum Fetch<'a> {
    Only {
        /// The ref name to fetch on the remote side, without updating the local side.
        src: &'a [u8],
    },
    /// Exclude a single ref.
    ExcludeSingle {
        /// A single full ref name to exclude.
        src: &'a [u8],
    },
    /// Exclude multiple refs with single `*` glob.
    ExcludeMultipleWithGlob {
        /// A ref pattern with a single `*`.
        src: &'a [u8],
    },
    AndUpdateSingle {
        /// The ref name to fetch on the remote side.
        src: &'a [u8],
        /// The local destination to update with what was fetched.
        dest: &'a [u8],
        /// If true, allow non-fast-forward updates of `dest`.
        allow_non_fast_forward: bool,
    },
    /// Similar to `AndUpdateSingle`, but src and destination contain a single glob to fetch and update multiple refs.
    AndUpdateMultipleWithGlob {
        /// The ref glob to match against all refs on the remote side for fetching.
        src: &'a [u8],
        /// The local destination to update with what was fetched by replacing the single `*` with the matching portion from `src`.
        dest: &'a [u8],
        /// If true, allow non-fast-forward updates of `dest`.
        allow_non_fast_forward: bool,
    },
}

/// The shape of an instruction, common to both operations.
#[derive(PartialEq, Eq, Structural, Copy, Clone, Debug)]
pub enum Shape {
    /// One literal name and nothing to update under another name:
    /// `Push::SingleMatching` and `Fetch::Only`.
    Literal,
    /// `ExcludeSingle`.
    ExcludeLiteral,
    /// `ExcludeMultipleWithGlob`.
    ExcludeGlob,
    /// `Push::Single` and `Fetch::AndUpdateSingle`.
    LiteralToLiteral,
    /// `Push::MultipleWithGlob` and `Fetch::AndUpdateMultipleWithGlob`.
    GlobToGlob,
}

/// The mathematical content of an instruction.
///
/// `dest` is `None` where the instruction names no destination of its own,
/// and `allow_non_fast_forward` is `false` where the variant carries no such
/// flag.
pub struct InstructionView {
    pub operation: Operation,
    pub shape: Shape,
    pub src: Seq<u8>,
    pub dest: Option<Seq<u8>>,
    pub allow_non_fast_forward: bool,
}

/// The wildcard byte `*`.
pub const GLOB: u8 = 42;

/// Whether `s` holds a `*` at all.
pub open spec fn has_glob(s: Seq<u8>) -> bool {
    exists|i: int| 0 <= i < s.len() && s[i] == GLOB
}

/// Whether `s` holds at least two `*`.
pub open spec fn has_multiple_globs(s: Seq<u8>) -> bool {
    exists|i: int, j: int| 0 <= i < j < s.len() && s[i] == GLOB && s[j] == GLOB
}

/// Whether `s` holds exactly one `*`.
pub open spec fn has_single_glob(s: Seq<u8>) -> bool {
    has_glob(s) && !has_multiple_globs(s)
}

impl InstructionView {
    /// The invariants of a compiled instruction: every pattern of a glob
    /// variant holds exactly one `*`, and a glob variant has a destination.
    pub open spec fn wf(self) -> bool {
        match self.shape {
            Shape::ExcludeGlob => has_single_glob(self.src) && self.dest is None,
            Shape::ExcludeLiteral => self.dest is None,
            Shape::GlobToGlob => has_single_glob(self.src) && (self.dest matches Some(d)
                && has_single_glob(d)),
            Shape::LiteralToLiteral => self.dest is Some,
            Shape::Literal => true,
        }
    }
}

impl<'a> Push<'a> {
    pub open spec fn view(&self) -> InstructionView {
        match *self {
            Push::SingleMatching { src_and_dest, allow_non_fast_forward } => InstructionView {
                operation: Operation::Push,
                shape: Shape::Literal,
                src: src_and_dest@,
                dest: Some(src_and_dest@),
                allow_non_fast_forward,
            },
            Push::ExcludeSingle { src } => InstructionView {
                operation: Operation::Push,
                shape: Shape::ExcludeLiteral,
                src: src@,
                dest: None,
                allow_non_fast_forward: false,
            },
            Push::ExcludeMultipleWithGlob { src } => InstructionView {
                operation: Operation::Push,
                shape: Shape::ExcludeGlob,
                src: src@,
                dest: None,
                allow_non_fast_forward: false,
            },
            Push::Single { src, dest, allow_non_fast_forward } => InstructionView {
                operation: Operation::Push,
                shape: Shape::LiteralToLiteral,
                src: src@,
                dest: Some(dest@),
                allow_non_fast_forward,
            },
            Push::MultipleWithGlob { src, dest, allow_non_fast_forward } => InstructionView {
                operation: Operation::Push,
                shape: Shape::GlobToGlob,
                src: src@,
                dest: Some(dest@),
                allow_non_fast_forward,
            },
        }
    }
}

impl<'a> Fetch<'a> {
    pub open spec fn view(&self) -> InstructionView {
        match *self {
            Fetch::Only { src } => InstructionView {
                operation: Operation::Fetch,
                shape: Shape::Literal,
                src: src@,
                dest: None,
                allow_non_fast_forward: false,
            },
            Fetch::ExcludeSingle { src } => InstructionView {
                operation: Operation::Fetch,
                shape: Shape::ExcludeLiteral,
                src: src@,
                dest: None,
                allow_non_fast_forward: false,
            },
            Fetch::ExcludeMultipleWithGlob { src } => InstructionView {
                operation: Operation::Fetch,
                shape: Shape::ExcludeGlob,
                src: src@,
                dest: None,
                allow_non_fast_forward: false,
            },
            Fetch::AndUpdateSingle { src, dest, allow_non_fast_forward } => InstructionView {
                operation: Operation::Fetch,
                shape: Shape::LiteralToLiteral,
                src: src@,
                dest: Some(dest@),
                allow_non_fast_forward,
            },
            Fetch::AndUpdateMultipleWithGlob { src, dest, allow_non_fast_forward } => InstructionView {
                operation: Operation::Fetch,
                shape: Shape::GlobToGlob,
                src: src@,
                dest: Some(dest@),
                allow_non_fast_forward,
            },
        }
    }
}

impl<'a> Instruction<'a> {
    pub open spec fn view(&self) -> InstructionView {
        match *self {
            Instruction::Push(p) => p.view(),
            Instruction::Fetch(f) => f.view(),
        }
    }

    /// The invariants that the compiler establishes.
    pub open spec fn wf(&self) -> bool {
        self.view().wf()
    }

    /// The shape of this instruction.
    pub fn shape(&self) -> (r: Shape)
        ensures
            r == self.view().shape,
    {
        match self {
            Instruction::Push(Push::SingleMatching { .. }) => Shape::Literal,
            Instruction::Push(Push::ExcludeSingle { .. }) => Shape::ExcludeLiteral,
            Instruction::Push(Push::ExcludeMultipleWithGlob { .. }) => Shape::ExcludeGlob,
            Instruction::Push(Push::Single { .. }) => Shape::LiteralToLiteral,
            Instruction::Push(Push::MultipleWithGlob { .. }) => Shape::GlobToGlob,
            Instruction::Fetch(Fetch::Only { .. }) => Shape::Literal,
            Instruction::Fetch(Fetch::ExcludeSingle { .. }) => Shape::ExcludeLiteral,
            Instruction::Fetch(Fetch::ExcludeMultipleWithGlob { .. }) => Shape::ExcludeGlob,
            Instruction::Fetch(Fetch::AndUpdateSingle { .. }) => Shape::LiteralToLiteral,
            Instruction::Fetch(Fetch::AndUpdateMultipleWithGlob { .. }) => Shape::GlobToGlob,
        }
    }

    /// The source name or pattern.
    pub fn source(&self) -> (r: &'a [u8])
        ensures
            r@ == self.view().src,
    {
        match *self {
            Instruction::Push(Push::SingleMatching { src_and_dest, .. }) => src_and_dest,
            Instruction::Push(Push::ExcludeSingle { src }) => src,
            Instruction::Push(Push::ExcludeMultipleWithGlob { src }) => src,
            Instruction::Push(Push::Single { src, .. }) => src,
            Instruction::Push(Push::MultipleWithGlob { src, .. }) => src,
            Instruction::Fetch(Fetch::Only { src }) => src,
            Instruction::Fetch(Fetch::ExcludeSingle { src }) => src,
            Instruction::Fetch(Fetch::ExcludeMultipleWithGlob { src }) => src,
            Instruction::Fetch(Fetch::AndUpdateSingle { src, .. }) => src,
            Instruction::Fetch(Fetch::AndUpdateMultipleWithGlob { src, .. }) => src,
        }
    }

    /// The destination name or pattern, where the instruction updates one.
    pub fn destination(&self) -> (r: Option<&'a [u8]>)
        ensures
            match r {
                Some(d) => self.view().dest == Some(d@),
                None => self.view().dest is None,
            },
    {
        match *self {
            Instruction::Push(Push::SingleMatching { src_and_dest, .. }) => Some(src_and_dest),
            Instruction::Push(Push::Single { dest, .. }) => Some(dest),
            Instruction::Push(Push::MultipleWithGlob { dest, .. }) => Some(dest),
            Instruction::Fetch(Fetch::AndUpdateSingle { dest, .. }) => Some(dest),
            Instruction::Fetch(Fetch::AndUpdateMultipleWithGlob { dest, .. }) => Some(dest),
            _ => None,
        }
    }

    /// Whether non-fast-forward updates of the destination are permitted.
    pub fn allow_non_fast_forward(&self) -> (r: bool)
        ensures
            r == self.view().allow_non_fast_forward,
    {
        match *self {
            Instruction::Push(Push::SingleMatching { allow_non_fast_forward, .. }) => allow_non_fast_forward,
            Instruction::Push(Push::Single { allow_non_fast_forward, .. }) => allow_non_fast_forward,
            Instruction::Push(Push::MultipleWithGlob { allow_non_fast_forward, .. }) => allow_non_fast_forward,
            Instruction::Fetch(Fetch::AndUpdateSingle { allow_non_fast_forward, .. }) => allow_non_fast_forward,
            Instruction::Fetch(Fetch::AndUpdateMultipleWithGlob { allow_non_fast_forward, .. }) => allow_non_fast_forward,
            _ => false,
        }
    }

    /// The operation this instruction was compiled for.
    pub fn operation(&self) -> (r: Operation)
        ensures
            r == self.view().operation,
    {
        match self {
            Instruction::Push(_) => Operation::Push,
            Instruction::Fetch(_) => Operation::Fetch,
        }
    }
}

} // verus!
