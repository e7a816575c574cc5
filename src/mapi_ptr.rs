//! Define [`MAPIBuffer`]: one node of a tree of allocations made with `MAPIAllocateBuffer`
//! (the root) and `MAPIAllocateMore` (nodes chained to the root), all freed together by a
//! single `MAPIFreeBuffer` on the root.
//!
//! A node knows its foreign address, its capacity in bytes, whether it has been initialized,
//! and, for a chained node, the address of its root. The allocator calls are handed in by the
//! caller; the node decides every size, state and ownership question itself. Typed access
//! hands back a [`BufferView`], the address and element count that the caller may treat as
//! a `T` or a `[T]`.
//!
//! A view of `count` elements fits when `count * size_of::<T>()` is at most the node's
//! capacity: a buffer may be larger than the view asked of it, never smaller.

use core::marker::PhantomData;
use vstd::layout::size_of;
use vstd::prelude::*;

use crate::hresult::{check_win32, status_result, E_OUTOFMEMORY};

verus! {

/// Errors which can be returned from this module.
#[derive(Clone, Copy, Debug, PartialEq, Eq, Structural)]
pub enum MAPIAllocError {
    /// The allocator takes a `u32` byte count; this many bytes (saturated at `usize::MAX`)
    /// cannot be asked for.
    SizeOverflow(usize),
    /// The typed view asked for does not fit in the allocation.
    OutOfBoundsAccess,
    /// The allocator reported this failing `HRESULT`, or returned no memory
    /// (`E_OUTOFMEMORY`).
    AllocationFailed(i32),
    /// The buffer has already been committed as initialized.
    AlreadyInitialized,
    /// The buffer has not been committed as initialized yet.
    NotYetInitialized,
}

/// The state of a buffer and its foreign address.
#[derive(Clone, Copy, Debug, PartialEq, Eq, Structural)]
enum Buffer {
    Uninit(usize),
    Ready(usize),
}

/// A typed view of an allocation: `len` elements starting at `address`.
#[derive(Clone, Copy, Debug, PartialEq, Eq, Structural)]
pub struct BufferView {
    pub address: usize,
    pub len: usize,
}

/// What a node is, as far as the rules of this module are concerned.
pub struct NodeModel {
    /// Foreign address of the allocation (0 once a root has been released).
    pub address: usize,
    /// Capacity in bytes.
    pub byte_count: nat,
    /// Whether the buffer has been committed as initialized.
    pub ready: bool,
    /// `None` for a root; the address of the root for a chained node.
    pub root: Option<usize>,
}

impl NodeModel {
    /// The address that further chained allocations and the final free are made against.
    pub open spec fn tree_root(self) -> usize {
        match self.root {
            None => self.address,
            Some(r) => r,
        }
    }

    /// A node that is valid to use: it has memory, and a chained node knows its root.
    pub open spec fn wf(self) -> bool {
        &&& self.address != 0
        &&& self.tree_root() != 0
    }
}

/// `count` elements of `T` fit in `byte_count` bytes.
pub open spec fn fits<T>(count: nat, byte_count: nat) -> bool {
    count * size_of::<T>() <= byte_count
}

/// The `u32` byte count asked of the allocator for `bytes` bytes, or why it cannot be asked.
pub open spec fn size_request(bytes: nat) -> Result<u32, MAPIAllocError> {
    if bytes > u32::MAX {
        Err(
            MAPIAllocError::SizeOverflow(
                if bytes > usize::MAX {
                    usize::MAX
                } else {
                    bytes as usize
                },
            ),
        )
    } else {
        Ok(bytes as u32)
    }
}

/// What an allocation call that returned `status` and `handle` gives: the address, or the
/// failure.
pub open spec fn allocation_result(status: u32, handle: usize) -> Result<usize, MAPIAllocError> {
    match status_result(status) {
        Err(code) => Err(MAPIAllocError::AllocationFailed(code)),
        Ok(_) => if handle == 0 {
            Err(MAPIAllocError::AllocationFailed(E_OUTOFMEMORY))
        } else {
            Ok(handle)
        },
    }
}

/// The node that an allocation of `byte_count` bytes at `address` makes.
pub open spec fn fresh_node(address: usize, byte_count: nat, root: Option<usize>) -> NodeModel {
    NodeModel { address, byte_count, ready: false, root }
}

/// The view of `count` elements of a node.
pub open spec fn view_of(m: NodeModel, count: usize) -> BufferView {
    BufferView { address: m.address, len: count }
}

/// Outcome of asking for an uninitialized view of `count` elements of `T`.
pub open spec fn uninit_outcome<T>(m: NodeModel, count: usize) -> Result<BufferView, MAPIAllocError> {
    if m.ready {
        Err(MAPIAllocError::AlreadyInitialized)
    } else if !fits::<T>(count as nat, m.byte_count) {
        Err(MAPIAllocError::OutOfBoundsAccess)
    } else {
        Ok(view_of(m, count))
    }
}

/// Outcome of committing `count` elements of `T` as initialized.
pub open spec fn commit_outcome<T>(m: NodeModel, count: usize) -> Result<BufferView, MAPIAllocError> {
    if m.ready {
        Err(MAPIAllocError::AlreadyInitialized)
    } else if !fits::<T>(count as nat, m.byte_count) {
        Err(MAPIAllocError::OutOfBoundsAccess)
    } else {
        Ok(view_of(m, count))
    }
}

/// The node after a commit with outcome `r`.
pub open spec fn after_commit(m: NodeModel, r: Result<BufferView, MAPIAllocError>) -> NodeModel {
    if r is Ok {
        NodeModel { ready: true, ..m }
    } else {
        m
    }
}

/// Outcome of asking for an initialized view of `count` elements of `T`.
pub open spec fn ready_outcome<T>(m: NodeModel, count: usize) -> Result<BufferView, MAPIAllocError> {
    if !m.ready {
        Err(MAPIAllocError::NotYetInitialized)
    } else if !fits::<T>(count as nat, m.byte_count) {
        Err(MAPIAllocError::OutOfBoundsAccess)
    } else {
        Ok(view_of(m, count))
    }
}

/// The address that releasing a node hands out to be freed: a root's own address, once.
pub open spec fn release_outcome(m: NodeModel) -> Option<usize> {
    if m.root is None && m.address != 0 {
        Some(m.address)
    } else {
        None
    }
}

/// The node after it has been released.
pub open spec fn after_release(m: NodeModel) -> NodeModel {
    if m.root is None {
        NodeModel { address: 0, ready: false, ..m }
    } else {
        m
    }
}

/// The `u32` byte count for `count` elements of `elem_size` bytes, or `SizeOverflow`.
fn check_size(count: usize, elem_size: usize) -> (r: Result<(usize, u32), MAPIAllocError>)
    ensures
        match size_request(count as nat * elem_size as nat) {
            Ok(b) => r == Ok::<(usize, u32), MAPIAllocError>((b as usize, b)),
            Err(e) => r == Err::<(usize, u32), MAPIAllocError>(e),
        },
{
    match elem_size.checked_mul(count) {
        None => {
            assert(count as nat * elem_size as nat > usize::MAX) by (nonlinear_arith)
                requires
                    elem_size as nat * count as nat > usize::MAX,
            ;
            Err(MAPIAllocError::SizeOverflow(usize::MAX))
        },
        Some(bytes) => {
            assert(bytes as nat == count as nat * elem_size as nat) by (nonlinear_arith)
                requires
                    bytes as nat == elem_size as nat * count as nat,
            ;
            if bytes > 0xFFFF_FFFFusize {
                Err(MAPIAllocError::SizeOverflow(bytes))
            } else {
                Ok((bytes, bytes as u32))
            }
        },
    }
}

/// Whether `count` elements of `T` fit in `byte_count` bytes, without overflow.
fn fits_in<T>(count: usize, byte_count: usize) -> (r: bool)
    ensures
        r == fits::<T>(count as nat, byte_count as nat),
{
    let size = core::mem::size_of::<T>();
    match size.checked_mul(count) {
        None => {
            assert(count as nat * size as nat > byte_count) by (nonlinear_arith)
                requires
                    size as nat * count as nat > usize::MAX,
                    byte_count <= usize::MAX,
            ;
            false
        },
        Some(bytes) => {
            assert(bytes as nat == count as nat * size as nat) by (nonlinear_arith)
                requires
                    bytes as nat == size as nat * count as nat,
            ;
            bytes <= byte_count
        },
    }
}

/// Read the outcome of an allocation call: the status it returned and the address it wrote.
pub fn check_allocation(status: u32, handle: usize) -> (r: Result<usize, MAPIAllocError>)
    ensures
        r == allocation_result(status, handle),
{
    match check_win32(status) {
        Err(code) => Err(MAPIAllocError::AllocationFailed(code)),
        Ok(()) => if handle == 0 {
            Err(MAPIAllocError::AllocationFailed(E_OUTOFMEMORY))
        } else {
            Ok(handle)
        },
    }
}

/// An allocation made with `MAPIAllocateBuffer` (a root) or `MAPIAllocateMore` (chained to a
/// root, which it must not outlive). Only the root is ever freed, once, for the whole tree.
pub struct MAPIBuffer<'a, T> {
    buffer: Buffer,
    byte_count: usize,
    root: Option<usize>,
    phantom: PhantomData<&'a T>,
}

impl<'a, T> View for MAPIBuffer<'a, T> {
    type V = NodeModel;

    closed spec fn view(&self) -> NodeModel {
        NodeModel {
            address: match self.buffer {
                Buffer::Uninit(a) => a,
                Buffer::Ready(a) => a,
            },
            byte_count: self.byte_count as nat,
            ready: self.buffer is Ready,
            root: self.root,
        }
    }
}

impl<'a, T> MAPIBuffer<'a, T> {
    /// Create a new allocation with enough room for `count` elements of type `T`.
    /// `allocate` makes the `MAPIAllocateBuffer` call: it takes the byte count and returns
    /// the status and the address written to the out-parameter. It is not called when the
    /// byte count does not fit in a `u32`.
    ///
    /// The result is the root of a new tree: chained allocations made from it are freed
    /// together with it.
    pub fn new<F>(count: usize, allocate: F) -> (r: Result<Self, MAPIAllocError>) where
        F: FnOnce(u32) -> (u32, usize),

        requires
            forall|b: u32| allocate.requires((b,)),
        ensures
            match size_request(count as nat * size_of::<T>()) {
                Err(e) => r == Err::<Self, MAPIAllocError>(e),
                Ok(b) => exists|status: u32, handle: usize|
                    {
                        &&& #[trigger] allocate.ensures((b,), (status, handle))
                        &&& match allocation_result(status, handle) {
                            Err(e) => r == Err::<Self, MAPIAllocError>(e),
                            Ok(a) => r is Ok && r->Ok_0@ == fresh_node(a, b as nat, None),
                        }
                    },
            },
            r is Ok ==> r->Ok_0@.wf(),
    {
        let (byte_count, request) = match check_size(count, core::mem::size_of::<T>()) {
            Ok(sizes) => sizes,
            Err(e) => return Err(e),
        };
        let (status, handle) = allocate(request);
        match check_allocation(status, handle) {
            Err(e) => Err(e),
            Ok(address) => Ok(
                MAPIBuffer {
                    buffer: Buffer::Uninit(address),
                    byte_count,
                    root: None,
                    phantom: PhantomData,
                },
            ),
        }
    }

    /// Create a new allocation with enough room for `count` elements of type `P`, chained to
    /// the root of this node's tree. `allocate_more` makes the `MAPIAllocateMore` call: it
    /// takes the byte count and the root's address and returns the status and the new address.
    ///
    /// The result borrows this node, and is freed only when the root is.
    pub fn chain<P, F>(&'a self, count: usize, allocate_more: F) -> (r: Result<
        MAPIBuffer<'a, P>,
        MAPIAllocError,
    >) where F: FnOnce(u32, usize) -> (u32, usize)
        requires
            forall|b: u32, root: usize| allocate_more.requires((b, root)),
        ensures
            match size_request(count as nat * size_of::<P>()) {
                Err(e) => r == Err::<MAPIBuffer<'a, P>, MAPIAllocError>(e),
                Ok(b) => exists|status: u32, handle: usize|
                    {
                        &&& #[trigger] allocate_more.ensures((b, self@.tree_root()), (status, handle))
                        &&& match allocation_result(status, handle) {
                            Err(e) => r == Err::<MAPIBuffer<'a, P>, MAPIAllocError>(e),
                            Ok(a) => r is Ok && r->Ok_0@ == fresh_node(
                                a,
                                b as nat,
                                Some(self@.tree_root()),
                            ),
                        }
                    },
            },
            self@.wf() && r is Ok ==> r->Ok_0@.wf(),
    {
        let root = match self.root {
            None => match self.buffer {
                Buffer::Uninit(a) => a,
                Buffer::Ready(a) => a,
            },
            Some(r) => r,
        };
        let (byte_count, request) = match check_size(count, core::mem::size_of::<P>()) {
            Ok(sizes) => sizes,
            Err(e) => return Err(e),
        };
        let (status, handle) = allocate_more(request, root);
        match check_allocation(status, handle) {
            Err(e) => Err(e),
            Ok(address) => Ok(
                MAPIBuffer {
                    buffer: Buffer::Uninit(address),
                    byte_count,
                    root: Some(root),
                    phantom: PhantomData,
                },
            ),
        }
    }

    /// Convert an uninitialized allocation to another element type, keeping its memory, its
    /// capacity and its place in the tree. A committed node is handed back unchanged with
    /// `AlreadyInitialized`, so that it can still be released.
    pub fn into<P>(self) -> (r: Result<MAPIBuffer<'a, P>, (MAPIAllocError, Self)>)
        ensures
            self@.ready ==> r is Err && r->Err_0.0 == MAPIAllocError::AlreadyInitialized
                && r->Err_0.1@ == self@,
            !self@.ready ==> r is Ok && r->Ok_0@ == self@,
    {
        match self.buffer {
            Buffer::Uninit(address) => Ok(
                MAPIBuffer {
                    buffer: Buffer::Uninit(address),
                    byte_count: self.byte_count,
                    root: self.root,
                    phantom: PhantomData,
                },
            ),
            Buffer::Ready(_) => Err((MAPIAllocError::AlreadyInitialized, self)),
        }
    }

    /// Get an uninitialized out-parameter with enough room for a single element of type `T`.
    pub fn uninit(&mut self) -> (r: Result<BufferView, MAPIAllocError>)
        ensures
            r == uninit_outcome::<T>(old(self)@, 1),
            final(self)@ == old(self)@,
    {
        self.uninit_slice(1)
    }

    /// Get an uninitialized out-parameter with enough room for `count` elements of type `T`.
    pub fn uninit_slice(&mut self, count: usize) -> (r: Result<BufferView, MAPIAllocError>)
        ensures
            r == uninit_outcome::<T>(old(self)@, count),
            final(self)@ == old(self)@,
    {
        let address = match self.buffer {
            Buffer::Uninit(a) => a,
            Buffer::Ready(_) => return Err(MAPIAllocError::AlreadyInitialized),
        };
        if !fits_in::<T>(count, self.byte_count) {
            return Err(MAPIAllocError::OutOfBoundsAccess);
        }
        Ok(BufferView { address, len: count })
    }

    /// Once the buffer is known to be completely filled in, commit it as initialized and get
    /// a view of a single element of type `T`.
    ///
    /// The caller vouches that the memory holds a valid `T`: this is the one point where the
    /// buffer's contents are taken on trust.
    pub fn assume_init(&mut self) -> (r: Result<BufferView, MAPIAllocError>)
        ensures
            r == commit_outcome::<T>(old(self)@, 1),
            final(self)@ == after_commit(old(self)@, r),
    {
        self.assume_init_slice(1)
    }

    /// Once the buffer is known to be completely filled in, commit it as initialized and get
    /// a view of `count` elements of type `T`.
    pub fn assume_init_slice(&mut self, count: usize) -> (r: Result<BufferView, MAPIAllocError>)
        ensures
            r == commit_outcome::<T>(old(self)@, count),
            final(self)@ == after_commit(old(self)@, r),
    {
        let address = match self.buffer {
            Buffer::Uninit(a) => a,
            Buffer::Ready(_) => return Err(MAPIAllocError::AlreadyInitialized),
        };
        if !fits_in::<T>(count, self.byte_count) {
            return Err(MAPIAllocError::OutOfBoundsAccess);
        }
        self.buffer = Buffer::Ready(address);
        Ok(BufferView { address, len: count })
    }

    /// Access a single element of type `T` once it has been committed.
    pub fn as_mut(&mut self) -> (r: Result<BufferView, MAPIAllocError>)
        ensures
            r == ready_outcome::<T>(old(self)@, 1),
            final(self)@ == old(self)@,
    {
        self.as_mut_slice(1)
    }

    /// Access `count` elements of type `T` once the buffer has been committed.
    pub fn as_mut_slice(&mut self, count: usize) -> (r: Result<BufferView, MAPIAllocError>)
        ensures
            r == ready_outcome::<T>(old(self)@, count),
            final(self)@ == old(self)@,
    {
        let address = match self.buffer {
            Buffer::Ready(a) => a,
            Buffer::Uninit(_) => return Err(MAPIAllocError::NotYetInitialized),
        };
        if !fits_in::<T>(count, self.byte_count) {
            return Err(MAPIAllocError::OutOfBoundsAccess);
        }
        Ok(BufferView { address, len: count })
    }

    /// Capacity of the allocation in bytes.
    pub fn byte_count(&self) -> (r: usize)
        ensures
            r == self@.byte_count,
    {
        self.byte_count
    }

    /// Whether the buffer has been committed as initialized.
    pub fn is_ready(&self) -> (r: bool)
        ensures
            r == self@.ready,
    {
        match self.buffer {
            Buffer::Ready(_) => true,
            Buffer::Uninit(_) => false,
        }
    }

    /// Whether this node is the root of its tree, the one that frees it.
    pub fn is_root(&self) -> (r: bool)
        ensures
            r == (self@.root is None),
    {
        self.root.is_none()
    }

    /// Give up this node's memory: a root hands out its address to be passed to
    /// `MAPIFreeBuffer`, and forgets it, so that a second release hands out nothing; a chained
    /// node hands out nothing, since its memory goes with the root's.
    pub fn release(&mut self) -> (r: Option<usize>)
        ensures
            r == release_outcome(old(self)@),
            final(self)@ == after_release(old(self)@),
    {
        match self.root {
            Some(_) => None,
            None => {
                let address = match self.buffer {
                    Buffer::Uninit(a) => a,
                    Buffer::Ready(a) => a,
                };
                self.buffer = Buffer::Uninit(0);
                if address != 0 {
                    Some(address)
                } else {
                    None
                }
            },
        }
    }
}

/// Holds an out-pointer for MAPI calls that make their own allocation with
/// `MAPIAllocateBuffer`. Nothing is known of the allocation's size: only null is checked.
pub struct MAPIOutParam<T> {
    address: usize,
    phantom: PhantomData<T>,
}

impl<T> View for MAPIOutParam<T> {
    type V = usize;

    closed spec fn view(&self) -> usize {
        self.address
    }
}

impl<T> Default for MAPIOutParam<T> {
    /// An out-parameter that holds no allocation.
    fn default() -> (r: Self)
        ensures
            r@ == 0,
    {
        MAPIOutParam { address: 0, phantom: PhantomData }
    }
}

impl<T> MAPIOutParam<T> {
    /// The slot that a MAPI call fills in with the address of the allocation it makes.
    pub fn as_mut_ptr(&mut self) -> (r: &mut usize)
        ensures
            *r == old(self)@,
            final(self)@ == *final(r),
    {
        &mut self.address
    }

    /// A view of a single element of type `T`, if the call made an allocation.
    pub fn as_mut(&mut self) -> (r: Option<BufferView>)
        ensures
            r == (if old(self)@ == 0 {
                None
            } else {
                Some(BufferView { address: old(self)@, len: 1 })
            }),
            final(self)@ == old(self)@,
    {
        self.as_mut_slice(1)
    }

    /// A view of `count` elements of type `T`, if the call made an allocation.
    pub fn as_mut_slice(&mut self, count: usize) -> (r: Option<BufferView>)
        ensures
            r == (if old(self)@ == 0 {
                None
            } else {
                Some(BufferView { address: old(self)@, len: count })
            }),
            final(self)@ == old(self)@,
    {
        if self.address == 0 {
            None
        } else {
            Some(BufferView { address: self.address, len: count })
        }
    }

    /// Give up the allocation: its address is handed out, once, to be passed to
    /// `MAPIFreeBuffer`.
    pub fn release(&mut self) -> (r: Option<usize>)
        ensures
            r == (if old(self)@ == 0 {
                None
            } else {
                Some(old(self)@)
            }),
            final(self)@ == 0,
    {
        let address = self.address;
        self.address = 0;
        if address != 0 {
            Some(address)
        } else {
            None
        }
    }
}

/// The number of addresses that releasing each of `nodes` hands out.
pub open spec fn free_count(nodes: Seq<NodeModel>) -> nat
    decreases nodes.len(),
{
    if nodes.len() == 0 {
        0
    } else {
        free_count(nodes.drop_last()) + if release_outcome(nodes.last()) is Some {
            1nat
        } else {
            0nat
        }
    }
}

/// Nodes chained to `root` hand out nothing when released.
proof fn lemma_chained_free_nothing(root: usize, chained: Seq<NodeModel>)
    requires
        forall|i: int| 0 <= i < chained.len() ==> #[trigger] chained[i].root == Some(root),
    ensures
        free_count(chained) == 0,
        free_count(chained.map_values(|m: NodeModel| after_release(m))) == 0,
    decreases chained.len(),
{
    if chained.len() > 0 {
        let rest = chained.drop_last();
        assert forall|i: int| 0 <= i < rest.len() implies #[trigger] rest[i].root == Some(root) by {
            assert(rest[i] == chained[i]);
        }
        lemma_chained_free_nothing(root, rest);
        let after = chained.map_values(|m: NodeModel| after_release(m));
        assert(after.drop_last() =~= rest.map_values(|m: NodeModel| after_release(m)));
        assert(chained.last().root == Some(root));
    }
}

/// A root made for `count` elements of `T` gives an uninitialized view of exactly `count`
/// elements, and of any `k` elements exactly when `k` elements of `T` fit in its bytes.
pub proof fn lemma_fresh_slice_fits<T>(
    address: usize,
    count: usize,
    bytes: u32,
    root: Option<usize>,
    k: usize,
)
    requires
        size_request(count as nat * size_of::<T>()) == Ok::<u32, MAPIAllocError>(bytes),
    ensures
        uninit_outcome::<T>(fresh_node(address, bytes as nat, root), count) == Ok::<
            BufferView,
            MAPIAllocError,
        >(BufferView { address, len: count }),
        uninit_outcome::<T>(fresh_node(address, bytes as nat, root), k) is Ok <==> k as nat
            * size_of::<T>() <= bytes as nat,
{
}

/// A commit that succeeded is followed by no other: a second commit of any size fails with
/// `AlreadyInitialized`. Before any commit, every typed access fails with
/// `NotYetInitialized`.
pub proof fn lemma_commit_once<T>(m: NodeModel, first: usize, second: usize)
    requires
        commit_outcome::<T>(m, first) is Ok,
    ensures
        commit_outcome::<T>(after_commit(m, commit_outcome::<T>(m, first)), second) == Err::<
            BufferView,
            MAPIAllocError,
        >(MAPIAllocError::AlreadyInitialized),
        !m.ready,
        ready_outcome::<T>(m, second) == Err::<BufferView, MAPIAllocError>(
            MAPIAllocError::NotYetInitialized,
        ),
{
}

/// Releasing a root and any number of nodes chained to it hands out exactly one address to
/// free, the root's; releasing all of them once more hands out none.
pub proof fn lemma_tree_freed_once(root: NodeModel, chained: Seq<NodeModel>)
    requires
        root.wf(),
        root.root is None,
        forall|i: int| 0 <= i < chained.len() ==> #[trigger] chained[i].root == Some(
            root.tree_root(),
        ),
    ensures
        free_count(chained.push(root)) == 1,
        release_outcome(root) == Some(root.address),
        free_count(chained.push(root).map_values(|m: NodeModel| after_release(m))) == 0,
{
    lemma_chained_free_nothing(root.tree_root(), chained);
    assert(chained.push(root).drop_last() =~= chained);
    let after = chained.push(root).map_values(|m: NodeModel| after_release(m));
    assert(after.drop_last() =~= chained.map_values(|m: NodeModel| after_release(m)));
}

} // verus!
