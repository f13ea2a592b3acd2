//! Control frames and the control stack of the translator.

use vstd::prelude::*;
use crate::encoder::LabelRef;
use crate::error::TranslationError;
use crate::instr::Instr;
use crate::register::RegSpan;
use crate::value::TypedProvider;

verus! {

/// The type of a block: how many operands it takes and leaves.
#[derive(Clone, Copy, Debug, PartialEq, Eq, Structural, Hash)]
pub struct BlockType {
    /// The number of parameters.
    pub len_params: u32,
    /// The number of results.
    pub len_results: u32,
}

impl BlockType {
    /// The block type with the given numbers of parameters and results.
    pub fn new(len_params: u32, len_results: u32) -> (r: BlockType)
        ensures
            r == (BlockType { len_params, len_results }),
    {
        BlockType { len_params, len_results }
    }
}

/// The height of the operand stack below the parameters of a block.
#[derive(Clone, Copy, Debug, PartialEq, Eq, Structural, Hash)]
pub struct BlockHeight(pub u16);

impl BlockHeight {
    /// The height below the `len_params` topmost operands of a stack of
    /// the height `height`. Fails if it does not fit 16 bits.
    pub fn new(height: usize, len_params: u32) -> (r: Result<BlockHeight, TranslationError>)
        requires
            len_params <= height,
        ensures
            r == if height - len_params <= u16::MAX {
                Ok::<BlockHeight, TranslationError>(BlockHeight((height - len_params) as u16))
            } else {
                Err::<BlockHeight, TranslationError>(TranslationError::EmulatedValueStackOverflow)
            },
    {
        let below = height - len_params as usize;
        if below <= 65535 {
            Ok(BlockHeight(below as u16))
        } else {
            Err(TranslationError::EmulatedValueStackOverflow)
        }
    }
}

/// The kinds of frames that start with a structured control operator.
#[derive(Clone, Copy, Debug, PartialEq, Eq, Structural, Hash)]
pub enum ControlFrameKind {
    /// A `block`.
    Block,
    /// A `loop`.
    Loop,
    /// An `if`.
    If,
}

/// Which branches of an `if` can be reached.
#[derive(Clone, Copy, Debug, PartialEq, Eq, Structural, Hash)]
pub enum IfReachability {
    /// The condition is not known: both branches can be reached, and the
    /// `else` branch starts at the label.
    Both { else_label: LabelRef },
    /// The condition is a constant that is true.
    OnlyThen,
    /// The condition is a constant that is false.
    OnlyElse,
}

/// The frame of a `block`.
#[derive(Clone, Copy, Debug, PartialEq, Eq, Structural, Hash)]
pub struct BlockControlFrame {
    /// The type of the block.
    pub block_type: BlockType,
    /// The label of the end of the block.
    pub end_label: LabelRef,
    /// The registers that a branch to the end leaves the results in.
    pub branch_params: RegSpan,
    /// The height of the operand stack below the parameters.
    pub stack_height: BlockHeight,
    /// The instruction that charges the fuel of the code in the block.
    pub consume_fuel: Option<Instr>,
    /// The number of branches to the end, as far as it can be counted.
    pub len_branches: usize,
}

/// The frame of a `loop`.
#[derive(Clone, Copy, Debug, PartialEq, Eq, Structural, Hash)]
pub struct LoopControlFrame {
    /// The type of the loop.
    pub block_type: BlockType,
    /// The label of the head of the loop, which is pinned.
    pub head_label: LabelRef,
    /// The registers that a branch to the head leaves the parameters in.
    pub branch_params: RegSpan,
    /// The height of the operand stack below the parameters.
    pub stack_height: BlockHeight,
    /// The instruction that charges the fuel of one iteration.
    pub consume_fuel: Option<Instr>,
    /// The number of branches to the head, as far as it can be counted.
    pub len_branches: usize,
}

/// The frame of an `if`.
#[derive(Clone, Copy, Debug, PartialEq, Eq, Structural, Hash)]
pub struct IfControlFrame {
    /// The type of the `if`.
    pub block_type: BlockType,
    /// The label of the end of the `if`.
    pub end_label: LabelRef,
    /// The registers that a branch to the end leaves the results in.
    pub branch_params: RegSpan,
    /// The height of the operand stack below the parameters.
    pub stack_height: BlockHeight,
    /// The instruction that charges the fuel of the current branch.
    pub consume_fuel: Option<Instr>,
    /// Which branches can be reached.
    pub reachability: IfReachability,
    /// Whether the `else` has been seen.
    pub visited_else: bool,
    /// Whether the end of the `then` branch could be reached, once the
    /// `else` has been seen.
    pub end_of_then_is_reachable: Option<bool>,
    /// Where the parameters of the `if` are kept for the `else` branch, if
    /// both branches can be reached.
    pub else_start: usize,
    /// The number of branches to the end, as far as it can be counted.
    pub len_branches: usize,
}

/// The frame of a block that starts in code that cannot be reached.
#[derive(Clone, Copy, Debug, PartialEq, Eq, Structural, Hash)]
pub struct UnreachableControlFrame {
    /// The operator that the block started with.
    pub kind: ControlFrameKind,
    /// The type of the block.
    pub block_type: BlockType,
}

/// A frame of the control stack.
#[derive(Clone, Copy, Debug, PartialEq, Eq, Structural, Hash)]
pub enum ControlFrame {
    /// The frame of a `block`.
    Block(BlockControlFrame),
    /// The frame of a `loop`.
    Loop(LoopControlFrame),
    /// The frame of an `if`.
    If(IfControlFrame),
    /// The frame of a block that cannot be reached.
    Unreachable(UnreachableControlFrame),
}

/// One more than `n`, as far as it can be counted.
pub open spec fn bumped(n: usize) -> usize {
    if n < usize::MAX {
        (n + 1) as usize
    } else {
        n
    }
}

impl IfControlFrame {
    /// Whether the `then` branch can be reached.
    pub open spec fn is_then_reachable(self) -> bool {
        !(self.reachability is OnlyElse)
    }

    /// Whether the `else` branch can be reached.
    pub open spec fn is_else_reachable(self) -> bool {
        !(self.reachability is OnlyThen)
    }

    /// The label of the `else` branch, if both branches can be reached.
    pub open spec fn else_label(self) -> Option<LabelRef> {
        match self.reachability {
            IfReachability::Both { else_label } => Some(else_label),
            _ => None,
        }
    }

    /// Whether the parameters of the `if` are still kept for an `else`
    /// branch to come.
    pub open spec fn keeps_else_providers(self) -> bool {
        self.reachability is Both && !self.visited_else
    }
}

impl ControlFrame {
    /// The type of the block of the frame.
    pub open spec fn block_type(self) -> BlockType {
        match self {
            ControlFrame::Block(f) => f.block_type,
            ControlFrame::Loop(f) => f.block_type,
            ControlFrame::If(f) => f.block_type,
            ControlFrame::Unreachable(f) => f.block_type,
        }
    }

    /// The height of the operand stack below the parameters of the block;
    /// zero for a frame that cannot be reached.
    pub open spec fn block_height(self) -> nat {
        match self {
            ControlFrame::Block(f) => f.stack_height.0 as nat,
            ControlFrame::Loop(f) => f.stack_height.0 as nat,
            ControlFrame::If(f) => f.stack_height.0 as nat,
            ControlFrame::Unreachable(_) => 0,
        }
    }

    /// The label that a branch to the frame targets: the head of a loop,
    /// the end of any other block.
    pub open spec fn branch_destination(self) -> LabelRef {
        match self {
            ControlFrame::Block(f) => f.end_label,
            ControlFrame::Loop(f) => f.head_label,
            ControlFrame::If(f) => f.end_label,
            ControlFrame::Unreachable(_) => LabelRef(0),
        }
    }

    /// The registers that a branch to the frame leaves its operands in.
    pub open spec fn branch_params(self) -> RegSpan {
        match self {
            ControlFrame::Block(f) => f.branch_params,
            ControlFrame::Loop(f) => f.branch_params,
            ControlFrame::If(f) => f.branch_params,
            ControlFrame::Unreachable(_) => RegSpan { head: crate::register::Register(0) },
        }
    }

    /// The number of operands that a branch to the frame carries: the
    /// parameters of a loop, the results of any other block.
    pub open spec fn len_branch_params(self) -> u32 {
        match self {
            ControlFrame::Loop(f) => f.block_type.len_params,
            _ => self.block_type().len_results,
        }
    }

    /// The instruction that charges the fuel of the code in the frame.
    pub open spec fn consume_fuel_instr(self) -> Option<Instr> {
        match self {
            ControlFrame::Block(f) => f.consume_fuel,
            ControlFrame::Loop(f) => f.consume_fuel,
            ControlFrame::If(f) => f.consume_fuel,
            ControlFrame::Unreachable(_) => None,
        }
    }

    /// The number of branches to the frame.
    pub open spec fn len_branches(self) -> usize {
        match self {
            ControlFrame::Block(f) => f.len_branches,
            ControlFrame::Loop(f) => f.len_branches,
            ControlFrame::If(f) => f.len_branches,
            ControlFrame::Unreachable(_) => 0,
        }
    }

    /// Whether a branch targets the frame.
    pub open spec fn is_branched_to(self) -> bool {
        self.len_branches() > 0
    }

    /// The frame with one branch more.
    pub open spec fn bump_branches(self) -> ControlFrame {
        match self {
            ControlFrame::Block(f) => ControlFrame::Block(
                BlockControlFrame { len_branches: bumped(f.len_branches), ..f },
            ),
            ControlFrame::Loop(f) => ControlFrame::Loop(
                LoopControlFrame { len_branches: bumped(f.len_branches), ..f },
            ),
            ControlFrame::If(f) => ControlFrame::If(IfControlFrame { len_branches: bumped(f.len_branches), ..f }),
            ControlFrame::Unreachable(f) => self,
        }
    }

    /// Computes [`Self::block_type`].
    pub fn block_type_exec(&self) -> (r: BlockType)
        ensures
            r == self.block_type(),
    {
        match self {
            ControlFrame::Block(f) => f.block_type,
            ControlFrame::Loop(f) => f.block_type,
            ControlFrame::If(f) => f.block_type,
            ControlFrame::Unreachable(f) => f.block_type,
        }
    }

    /// Computes [`Self::block_height`].
    pub fn block_height_exec(&self) -> (r: usize)
        ensures
            r == self.block_height(),
    {
        match self {
            ControlFrame::Block(f) => f.stack_height.0 as usize,
            ControlFrame::Loop(f) => f.stack_height.0 as usize,
            ControlFrame::If(f) => f.stack_height.0 as usize,
            ControlFrame::Unreachable(_) => 0,
        }
    }

    /// Computes [`Self::branch_destination`].
    pub fn branch_destination_exec(&self) -> (r: LabelRef)
        ensures
            r == self.branch_destination(),
    {
        match self {
            ControlFrame::Block(f) => f.end_label,
            ControlFrame::Loop(f) => f.head_label,
            ControlFrame::If(f) => f.end_label,
            ControlFrame::Unreachable(_) => LabelRef(0),
        }
    }

    /// Computes [`Self::branch_params`].
    pub fn branch_params_exec(&self) -> (r: RegSpan)
        ensures
            r == self.branch_params(),
    {
        match self {
            ControlFrame::Block(f) => f.branch_params,
            ControlFrame::Loop(f) => f.branch_params,
            ControlFrame::If(f) => f.branch_params,
            ControlFrame::Unreachable(_) => RegSpan { head: crate::register::Register(0) },
        }
    }

    /// Computes [`Self::len_branch_params`].
    pub fn len_branch_params_exec(&self) -> (r: u32)
        ensures
            r == self.len_branch_params(),
    {
        match self {
            ControlFrame::Block(f) => f.block_type.len_results,
            ControlFrame::Loop(f) => f.block_type.len_params,
            ControlFrame::If(f) => f.block_type.len_results,
            ControlFrame::Unreachable(f) => f.block_type.len_results,
        }
    }

    /// Computes [`Self::consume_fuel_instr`].
    pub fn consume_fuel_instr_exec(&self) -> (r: Option<Instr>)
        ensures
            r == self.consume_fuel_instr(),
    {
        match self {
            ControlFrame::Block(f) => f.consume_fuel,
            ControlFrame::Loop(f) => f.consume_fuel,
            ControlFrame::If(f) => f.consume_fuel,
            ControlFrame::Unreachable(_) => None,
        }
    }

    /// Computes [`Self::is_branched_to`].
    pub fn is_branched_to_exec(&self) -> (r: bool)
        ensures
            r == self.is_branched_to(),
    {
        match self {
            ControlFrame::Block(f) => f.len_branches > 0,
            ControlFrame::Loop(f) => f.len_branches > 0,
            ControlFrame::If(f) => f.len_branches > 0,
            ControlFrame::Unreachable(_) => false,
        }
    }

    /// Computes [`Self::bump_branches`].
    pub fn bump_branches_exec(self) -> (r: ControlFrame)
        ensures
            r == self.bump_branches(),
    {
        match self {
            ControlFrame::Block(f) => {
                let n = if f.len_branches < usize::MAX { f.len_branches + 1 } else { f.len_branches };
                ControlFrame::Block(BlockControlFrame { len_branches: n, ..f })
            },
            ControlFrame::Loop(f) => {
                let n = if f.len_branches < usize::MAX { f.len_branches + 1 } else { f.len_branches };
                ControlFrame::Loop(LoopControlFrame { len_branches: n, ..f })
            },
            ControlFrame::If(f) => {
                let n = if f.len_branches < usize::MAX { f.len_branches + 1 } else { f.len_branches };
                ControlFrame::If(IfControlFrame { len_branches: n, ..f })
            },
            ControlFrame::Unreachable(f) => ControlFrame::Unreachable(f),
        }
    }
}

/// What a branch of a given depth targets.
#[derive(Clone, Copy, Debug, PartialEq, Eq, Structural, Hash)]
pub enum AcquiredTarget {
    /// The function itself: the branch returns from it.
    Return,
    /// The frame at this position of the control stack, counted from the
    /// bottom.
    Branch(usize),
}

/// The control stack as a mathematical value.
pub struct ControlView {
    /// The frames, the innermost last.
    pub frames: Seq<ControlFrame>,
    /// The parameters of the `if` frames whose `else` is still to come,
    /// those of the innermost such frame last.
    pub else_providers: Seq<TypedProvider>,
}

impl ControlView {
    /// What a branch of the depth `depth` targets: the function if the
    /// depth is the number of frames, else the frame that many frames
    /// below the innermost.
    pub open spec fn acquire_target(self, depth: u32) -> AcquiredTarget {
        if depth == self.frames.len() {
            AcquiredTarget::Return
        } else {
            AcquiredTarget::Branch((self.frames.len() - 1 - depth) as usize)
        }
    }

    /// The stack with `frame` as its innermost frame.
    pub open spec fn push_frame(self, frame: ControlFrame) -> ControlView {
        ControlView { frames: self.frames.push(frame), ..self }
    }

    /// The stack without its innermost frame.
    pub open spec fn pop_frame(self) -> ControlView {
        ControlView { frames: self.frames.drop_last(), ..self }
    }

    /// The stack with one branch more to the frame at `index`.
    pub open spec fn bump_branches(self, index: int) -> ControlView {
        ControlView { frames: self.frames.update(index, self.frames[index].bump_branches()), ..self }
    }

    /// The stack keeping `providers` for an `else` branch to come.
    pub open spec fn push_else_providers(self, providers: Seq<TypedProvider>) -> ControlView {
        ControlView { else_providers: self.else_providers + providers, ..self }
    }

    /// The `len` providers kept from the position `start` on.
    pub open spec fn else_providers_from(self, start: int, len: int) -> Seq<TypedProvider> {
        self.else_providers.subrange(start, start + len)
    }

    /// The stack without the providers kept from the position `start` on.
    pub open spec fn pop_else_providers(self, start: int) -> ControlView {
        ControlView { else_providers: self.else_providers.take(start), ..self }
    }
}

/// The control stack of the translator.
#[derive(Debug)]
pub struct ControlStack {
    frames: Vec<ControlFrame>,
    else_providers: Vec<TypedProvider>,
}

impl View for ControlStack {
    type V = ControlView;

    closed spec fn view(&self) -> ControlView {
        ControlView { frames: self.frames@, else_providers: self.else_providers@ }
    }
}

impl ControlStack {
    /// The empty control stack.
    pub fn new() -> (r: ControlStack)
        ensures
            r@ == (ControlView { frames: Seq::empty(), else_providers: Seq::empty() }),
    {
        ControlStack { frames: Vec::new(), else_providers: Vec::new() }
    }

    /// The number of frames.
    pub fn len(&self) -> (r: usize)
        ensures
            r == self@.frames.len(),
    {
        self.frames.len()
    }

    /// Whether the stack has no frame.
    pub fn is_empty(&self) -> (r: bool)
        ensures
            r == (self@.frames.len() == 0),
    {
        self.frames.len() == 0
    }

    /// The number of providers kept for `else` branches.
    pub fn len_else_providers(&self) -> (r: usize)
        ensures
            r == self@.else_providers.len(),
    {
        self.else_providers.len()
    }

    /// Makes `frame` the innermost frame.
    pub fn push_frame(&mut self, frame: ControlFrame)
        ensures
            final(self)@ == old(self)@.push_frame(frame),
    {
        self.frames.push(frame);
    }

    /// Removes the innermost frame and returns it.
    pub fn pop_frame(&mut self) -> (r: ControlFrame)
        requires
            old(self)@.frames.len() > 0,
        ensures
            r == old(self)@.frames.last(),
            final(self)@ == old(self)@.pop_frame(),
    {
        let r = self.frames.pop();
        r.unwrap()
    }

    /// The innermost frame.
    pub fn last(&self) -> (r: ControlFrame)
        requires
            self@.frames.len() > 0,
        ensures
            r == self@.frames.last(),
    {
        self.frames[self.frames.len() - 1]
    }

    /// The frame at the position `index`, counted from the bottom.
    pub fn get(&self, index: usize) -> (r: ControlFrame)
        requires
            index < self@.frames.len(),
        ensures
            r == self@.frames[index as int],
    {
        self.frames[index]
    }

    /// What a branch of the depth `depth` targets.
    pub fn acquire_target(&self, depth: u32) -> (r: AcquiredTarget)
        requires
            depth <= self@.frames.len(),
        ensures
            r == self@.acquire_target(depth),
    {
        let n = self.frames.len();
        if depth as usize == n {
            AcquiredTarget::Return
        } else {
            AcquiredTarget::Branch(n - 1 - depth as usize)
        }
    }

    /// Counts one branch more to the frame at the position `index`.
    pub fn bump_branches(&mut self, index: usize)
        requires
            index < old(self)@.frames.len(),
        ensures
            final(self)@ == old(self)@.bump_branches(index as int),
    {
        let frame = self.frames[index].bump_branches_exec();
        self.frames[index] = frame;
    }

    /// Keeps `providers` for an `else` branch to come and returns the
    /// position from which they are kept.
    pub fn push_else_providers(&mut self, providers: &Vec<TypedProvider>) -> (r: usize)
        ensures
            r == old(self)@.else_providers.len(),
            final(self)@ == old(self)@.push_else_providers(providers@),
    {
        let start = self.else_providers.len();
        let n = providers.len();
        let mut i: usize = 0;
        while i < n
            invariant
                i <= n,
                n == providers.len(),
                self.frames == old(self).frames,
                self.else_providers@ == old(self).else_providers@ + providers@.take(i as int),
            decreases n - i,
        {
            self.else_providers.push(providers[i]);
            assert(providers@.take(i + 1) =~= providers@.take(i as int).push(providers@[i as int]));
            i += 1;
        }
        assert(providers@.take(n as int) =~= providers@);
        start
    }

    /// Moves the `len` providers kept from the position `start` on to
    /// `out`, and drops those kept after them.
    pub fn pop_else_providers(&mut self, start: usize, len: usize, out: &mut Vec<TypedProvider>)
        requires
            start + len <= old(self)@.else_providers.len(),
        ensures
            final(out)@ == old(self)@.else_providers_from(start as int, len as int),
            final(self)@ == old(self)@.pop_else_providers(start as int),
    {
        out.clear();
        let total = self.else_providers.len();
        let n = start + len;
        let mut i: usize = start;
        while i < n
            invariant
                start <= i <= n,
                n <= self.else_providers.len(),
                self.else_providers == old(self).else_providers,
                self.frames == old(self).frames,
                out@ == self.else_providers@.subrange(start as int, i as int),
            decreases n - i,
        {
            out.push(self.else_providers[i]);
            assert(out@ =~= self.else_providers@.subrange(start as int, i + 1));
            i += 1;
        }
        self.else_providers.truncate(start);
        assert(self.else_providers@ =~= old(self)@.else_providers.take(start as int));
    }
}

} // verus!
