//! The event dispatch table of the supervisor loop: each readiness source registered
//! with the demultiplexer has a tag at a stable index, and device handlers are found
//! by (device type, device id). The table only grows.

use vstd::prelude::*;
use crate::error::Error;
use crate::vcpu::FC_EXIT_CODE_OK;

verus! {

/// What a ready event stands for.
#[derive(Clone, Copy, Debug, PartialEq, Eq, Structural)]
pub enum EpollDispatch {
    /// A vCPU asked to end the VM.
    Exit,
    /// Input on the console.
    Stdin,
    /// Event `1` of the device handler at index `0`.
    DeviceHandler(usize, u32),
    /// An API action is queued.
    VmmActionRequest,
    /// The metrics timer fired.
    WriteMetrics,
}

/// One (device type, device id) to handler index binding.
#[derive(Clone, Debug, PartialEq, Eq)]
pub struct HandlerBinding {
    /// Virtio device type.
    pub type_id: u32,
    /// Device id.
    pub device_id: String,
    /// Index of the handler slot.
    pub handler_id: usize,
}

/// The device has a binding.
pub open spec fn has_binding(b: Seq<HandlerBinding>, type_id: u32, id: Seq<char>) -> bool {
    exists|k: int| 0 <= k < b.len() && (#[trigger] b[k]).type_id == type_id && b[k].device_id@ == id
}

/// A device tag points at one of the first `n` handler slots.
pub open spec fn tag_in_range(t: Option<EpollDispatch>, n: nat) -> bool {
    match t {
        Some(EpollDispatch::DeviceHandler(h, _)) => h < n,
        _ => true,
    }
}

/// The dispatch table and the handler bindings.
pub struct DispatchTable {
    stdin_index: usize,
    dispatch_table: Vec<Option<EpollDispatch>>,
    device_handlers: usize,
    bindings: Vec<HandlerBinding>,
}

impl DispatchTable {
    /// The tags, by index.
    pub closed spec fn tags(&self) -> Seq<Option<EpollDispatch>> {
        self.dispatch_table@
    }

    /// The number of handler slots.
    pub closed spec fn handlers(&self) -> nat {
        self.device_handlers as nat
    }

    /// The index of the console input tag.
    pub closed spec fn stdin_idx(&self) -> nat {
        self.stdin_index as nat
    }

    /// The bindings, in registration order.
    pub closed spec fn spec_bindings(&self) -> Seq<HandlerBinding> {
        self.bindings@
    }

    /// Device tags and bindings point at existing handler slots; each device is bound
    /// once; the console input slot exists.
    pub open spec fn wf(&self) -> bool {
        &&& self.stdin_idx() < self.tags().len()
        &&& forall|i: int| 0 <= i < self.tags().len() ==> tag_in_range(#[trigger] self.tags()[i], self.handlers())
        &&& forall|k: int| 0 <= k < self.spec_bindings().len() ==> (#[trigger] self.spec_bindings()[k]).handler_id < self.handlers()
        &&& forall|i: int, j: int| 0 <= i < self.spec_bindings().len() && 0 <= j < self.spec_bindings().len() && i != j
            ==> !((#[trigger] self.spec_bindings()[i]).type_id == (#[trigger] self.spec_bindings()[j]).type_id
                && self.spec_bindings()[i].device_id@ == self.spec_bindings()[j].device_id@)
    }

    proof fn lemma_frame(&self, prev: DispatchTable)
        requires
            prev.wf(),
            self.spec_bindings() == prev.spec_bindings(),
            self.handlers() >= prev.handlers(),
            self.stdin_idx() == prev.stdin_idx(),
            self.tags().len() >= prev.tags().len(),
            forall|i: int| 0 <= i < self.tags().len() ==> tag_in_range(#[trigger] self.tags()[i], self.handlers())
                || (i < prev.tags().len() && self.tags()[i] == prev.tags()[i]),
        ensures
            self.wf(),
    {
        assert forall|i: int| 0 <= i < self.tags().len() implies tag_in_range(#[trigger] self.tags()[i], self.handlers()) by {
            if !tag_in_range(self.tags()[i], self.handlers()) {
                assert(tag_in_range(prev.tags()[i], prev.handlers()));
            }
        }
        assert forall|k: int| 0 <= k < self.spec_bindings().len() implies (#[trigger] self.spec_bindings()[k]).handler_id < self.handlers() by {
            assert(prev.spec_bindings()[k].handler_id < prev.handlers());
        }
        assert forall|i: int, j: int| 0 <= i < self.spec_bindings().len() && 0 <= j < self.spec_bindings().len() && i != j
            implies !((#[trigger] self.spec_bindings()[i]).type_id == (#[trigger] self.spec_bindings()[j]).type_id
                && self.spec_bindings()[i].device_id@ == self.spec_bindings()[j].device_id@) by {
            assert(prev.spec_bindings()[i] == self.spec_bindings()[i]);
            assert(prev.spec_bindings()[j] == self.spec_bindings()[j]);
        }
    }

    /// A table with one slot, for console input, not yet enabled.
    pub fn new() -> (r: DispatchTable)
        ensures
            r.wf(),
            r.tags() == seq![None::<EpollDispatch>],
            r.stdin_idx() == 0,
            r.handlers() == 0,
            r.spec_bindings().len() == 0,
    {
        let mut t: Vec<Option<EpollDispatch>> = Vec::new();
        t.push(None);
        let r = DispatchTable { stdin_index: 0, dispatch_table: t, device_handlers: 0, bindings: Vec::new() };
        assert(r.tags() =~= seq![None::<EpollDispatch>]);
        r
    }

    /// The index the next registered event gets.
    pub fn next_index(&self) -> (r: usize)
        ensures
            r == self.tags().len(),
    {
        self.dispatch_table.len()
    }

    /// The index of the console input tag.
    pub fn stdin_index(&self) -> (r: usize)
        ensures
            r == self.stdin_idx(),
    {
        self.stdin_index
    }

    /// Records an event registered at `next_index()`; returns its index.
    pub fn add_event(&mut self, token: EpollDispatch) -> (r: usize)
        requires
            old(self).wf(),
            !(token is DeviceHandler),
            old(self).tags().len() < usize::MAX,
        ensures
            final(self).wf(),
            r == old(self).tags().len(),
            final(self).tags() == old(self).tags().push(Some(token)),
            final(self).handlers() == old(self).handlers(),
            final(self).stdin_idx() == old(self).stdin_idx(),
            final(self).spec_bindings() == old(self).spec_bindings(),
    {
        let idx = self.dispatch_table.len();
        self.dispatch_table.push(Some(token));
        proof {
            self.lemma_frame(*old(self));
        }
        idx
    }

    /// Marks console input as registered.
    pub fn enable_stdin_event(&mut self)
        requires
            old(self).wf(),
        ensures
            final(self).wf(),
            final(self).tags() == old(self).tags().update(old(self).stdin_idx() as int, Some(EpollDispatch::Stdin)),
            final(self).handlers() == old(self).handlers(),
            final(self).stdin_idx() == old(self).stdin_idx(),
            final(self).spec_bindings() == old(self).spec_bindings(),
    {
        let i = self.stdin_index;
        self.dispatch_table.set(i, Some(EpollDispatch::Stdin));
        proof {
            self.lemma_frame(*old(self));
        }
    }

    /// Marks console input as no longer registered.
    pub fn disable_stdin_event(&mut self)
        requires
            old(self).wf(),
        ensures
            final(self).wf(),
            final(self).tags() == old(self).tags().update(old(self).stdin_idx() as int, None),
            final(self).handlers() == old(self).handlers(),
            final(self).stdin_idx() == old(self).stdin_idx(),
            final(self).spec_bindings() == old(self).spec_bindings(),
    {
        let i = self.stdin_index;
        self.dispatch_table.set(i, None);
        proof {
            self.lemma_frame(*old(self));
        }
    }

    /// Reserves `count` consecutive tags for a new handler slot; returns the first
    /// index and the slot.
    pub fn allocate_tokens(&mut self, count: u32) -> (r: (usize, usize))
        requires
            old(self).wf(),
            old(self).tags().len() + count < usize::MAX,
            old(self).handlers() < usize::MAX,
        ensures
            final(self).wf(),
            r.0 == old(self).tags().len(),
            r.1 == old(self).handlers(),
            final(self).handlers() == old(self).handlers() + 1,
            final(self).tags() == old(self).tags() + Seq::new(count as nat,
                |x: int| Some(EpollDispatch::DeviceHandler(old(self).handlers() as usize, x as u32))),
            final(self).stdin_idx() == old(self).stdin_idx(),
            final(self).spec_bindings() == old(self).spec_bindings(),
    {
        let base = self.dispatch_table.len();
        let idx = self.device_handlers;
        let mut x: u32 = 0;
        while x < count
            invariant
                x <= count,
                idx == old(self).handlers(),
                self.device_handlers == idx,
                self.stdin_index == old(self).stdin_index,
                self.bindings == old(self).bindings,
                self.dispatch_table@ == old(self).tags() + Seq::new(x as nat,
                    |k: int| Some(EpollDispatch::DeviceHandler(idx, k as u32))),
                old(self).tags().len() + count < usize::MAX,
            decreases count - x,
        {
            self.dispatch_table.push(Some(EpollDispatch::DeviceHandler(idx, x)));
            assert(self.dispatch_table@ =~= old(self).tags() + Seq::new((x + 1) as nat,
                |k: int| Some(EpollDispatch::DeviceHandler(idx, k as u32))));
            x = x + 1;
        }
        self.device_handlers = idx + 1;
        proof {
            let t = self.tags();
            let o = old(self).tags();
            assert forall|i: int| 0 <= i < t.len() implies tag_in_range(#[trigger] t[i], self.handlers()) by {
                if i < o.len() {
                    assert(t[i] == o[i]);
                    assert(tag_in_range(o[i], old(self).handlers()));
                }
            }
            self.lemma_frame(*old(self));
        }
        (base, idx)
    }

    /// The handler slot bound to this device, if any.
    pub fn get_handler_id(&self, type_id: u32, device_id: &String) -> (r: Result<usize, Error>)
        requires
            self.wf(),
        ensures
            r is Ok <==> has_binding(self.spec_bindings(), type_id, device_id@),
            r is Ok ==> r->Ok_0 < self.handlers(),
            r is Err ==> r->Err_0 == Error::DeviceEventHandlerNotFound,
    {
        let n = self.bindings.len();
        let mut i: usize = 0;
        while i < n
            invariant
                self.wf(),
                n == self.bindings@.len(),
                i <= n,
                forall|k: int| 0 <= k < i ==> !((#[trigger] self.bindings@[k]).type_id == type_id
                    && self.bindings@[k].device_id@ == device_id@),
            decreases n - i,
        {
            if self.bindings[i].type_id == type_id && self.bindings[i].device_id == *device_id {
                return Ok(self.bindings[i].handler_id);
            }
            i = i + 1;
        }
        Err(Error::DeviceEventHandlerNotFound)
    }

    /// Reserves tags for a virtio device and binds the device to the new handler slot;
    /// returns the first tag index. A device already bound is refused.
    pub fn allocate_virtio_tokens(&mut self, type_id: u32, device_id: &String, count: u32) -> (r: Result<usize, Error>)
        requires
            old(self).wf(),
            old(self).tags().len() + count < usize::MAX,
            old(self).handlers() < usize::MAX,
        ensures
            final(self).wf(),
            r is Err <==> has_binding(old(self).spec_bindings(), type_id, device_id@),
            r is Err ==> *final(self) == *old(self) && r->Err_0 == Error::EpollFd,
            r is Ok ==> {
                &&& r->Ok_0 == old(self).tags().len()
                &&& final(self).handlers() == old(self).handlers() + 1
                &&& final(self).tags().len() == old(self).tags().len() + count
                &&& final(self).spec_bindings() == old(self).spec_bindings().push(HandlerBinding {
                    type_id,
                    device_id: *device_id,
                    handler_id: old(self).handlers() as usize,
                })
            },
    {
        if self.get_handler_id(type_id, device_id).is_ok() {
            return Err(Error::EpollFd);
        }
        let (base, idx) = self.allocate_tokens(count);
        self.bindings.push(HandlerBinding { type_id, device_id: device_id.clone(), handler_id: idx });
        proof {
            let b = self.spec_bindings();
            let o = old(self).spec_bindings();
            assert forall|k: int| 0 <= k < b.len() implies (#[trigger] b[k]).handler_id < self.handlers() by {
                if k < o.len() {
                    assert(b[k] == o[k]);
                }
            }
            assert forall|i: int, j: int| 0 <= i < b.len() && 0 <= j < b.len() && i != j
                implies !((#[trigger] b[i]).type_id == (#[trigger] b[j]).type_id && b[i].device_id@ == b[j].device_id@) by {
                if i < o.len() && j < o.len() {
                    assert(b[i] == o[i] && b[j] == o[j]);
                } else if i < o.len() {
                    assert(b[i] == o[i]);
                    assert(!(o[i].type_id == type_id && o[i].device_id@ == device_id@));
                } else {
                    assert(b[j] == o[j]);
                    assert(!(o[j].type_id == type_id && o[j].device_id@ == device_id@));
                }
            }
        }
        Ok(base)
    }

    /// The tag of the event at `index`, if it is registered.
    pub fn dispatch(&self, index: u64) -> (r: Option<EpollDispatch>)
        ensures
            r == if index < self.tags().len() { self.tags()[index as int] } else { None },
    {
        if index < self.dispatch_table.len() as u64 {
            self.dispatch_table[index as usize]
        } else {
            None
        }
    }
}

/// What the supervisor loop does for a ready event.
#[derive(Clone, Copy, Debug, PartialEq, Eq, Structural)]
pub enum LoopAction {
    /// Drain the exit event, let the console flush, and end the process with this code.
    Stop(u8),
    /// Read up to 64 bytes of console input.
    ReadStdin,
    /// Hand event `1` to the device handler at index `0`.
    Deliver(usize, u32),
    /// Dequeue one API action and answer it.
    ServeApi,
    /// Log dirty pages and flush the metrics.
    WriteMetrics,
    /// Nothing is registered at that index.
    Ignore,
}

/// The supervisor's reaction to a ready event's tag.
pub open spec fn loop_action(tag: Option<EpollDispatch>) -> LoopAction {
    match tag {
        None => LoopAction::Ignore,
        Some(EpollDispatch::Exit) => LoopAction::Stop(FC_EXIT_CODE_OK),
        Some(EpollDispatch::Stdin) => LoopAction::ReadStdin,
        Some(EpollDispatch::DeviceHandler(h, e)) => LoopAction::Deliver(h, e),
        Some(EpollDispatch::VmmActionRequest) => LoopAction::ServeApi,
        Some(EpollDispatch::WriteMetrics) => LoopAction::WriteMetrics,
    }
}

/// Decides what to do for a ready event.
pub fn decide(tag: Option<EpollDispatch>) -> (r: LoopAction)
    ensures
        r == loop_action(tag),
{
    match tag {
        None => LoopAction::Ignore,
        Some(EpollDispatch::Exit) => LoopAction::Stop(FC_EXIT_CODE_OK),
        Some(EpollDispatch::Stdin) => LoopAction::ReadStdin,
        Some(EpollDispatch::DeviceHandler(h, e)) => LoopAction::Deliver(h, e),
        Some(EpollDispatch::VmmActionRequest) => LoopAction::ServeApi,
        Some(EpollDispatch::WriteMetrics) => LoopAction::WriteMetrics,
    }
}

/// After reading console input: `None` when the read failed or hit end of input (the
/// console event is then disabled), else the number of bytes to queue to the serial
/// device.
pub fn stdin_read_outcome(read: Option<usize>) -> (r: Option<usize>)
    ensures
        r == match read {
            Some(n) => if n > 0 { Some(n) } else { None },
            None => None::<usize>,
        },
{
    match read {
        Some(n) => if n > 0 { Some(n) } else { None },
        None => None,
    }
}

} // verus!
