//! The bookkeeping of the event dispatcher: which token stands at which place
//! of the dispatch table, and which device listens behind which handler.

use crate::vmm_config::rate_limiter::{RateLimiter, TokenBucket};
use vstd::prelude::*;
use vstd::string::*;

verus! {

/// The most events that one device may listen for.
pub const MAX_DEVICE_EVENTS: usize = 0x1_0000;

/// What an event on the dispatcher means.
#[derive(Clone, Copy, Debug, PartialEq, Eq, Structural)]
pub enum EpollDispatch {
    /// The guest asked for shutdown.
    Exit,
    /// There is input on the standard input.
    Stdin,
    /// An event of a device: the place of its handler and the number of the
    /// event among the device's own.
    DeviceHandler(usize, u16),
    /// A control action is waiting.
    VmmActionRequest,
    /// It is time to write the metrics.
    WriteMetrics,
    /// The secondary event manager has events.
    PollyEvent,
    /// The thread of the vCPU with this number has ended.
    Vcpu(u8),
}

/// Why a device's handler could not be had.
#[derive(Clone, Copy, Debug, PartialEq, Eq, Structural)]
pub enum EpollError {
    /// No handler is registered for the device.
    DeviceEventHandlerNotFound,
    /// The handler that is registered for the device is of another kind.
    DeviceEventHandlerInvalidDowncast,
}

impl EpollError {
    /// The text of `message`.
    pub open spec fn message_spec(self) -> Seq<char> {
        match self {
            EpollError::DeviceEventHandlerNotFound => "DeviceEventHandlerNotFound"@,
            EpollError::DeviceEventHandlerInvalidDowncast => "DeviceEventHandlerInvalidDowncast"@,
        }
    }

    /// The name of the error.
    pub fn message(&self) -> (r: String)
        ensures
            r@ == self.message_spec(),
    {
        match self {
            EpollError::DeviceEventHandlerNotFound => String::from_str(
                "DeviceEventHandlerNotFound",
            ),
            EpollError::DeviceEventHandlerInvalidDowncast => String::from_str(
                "DeviceEventHandlerInvalidDowncast",
            ),
        }
    }
}

/// What a device's handler holds of the running device.
#[derive(Clone, Copy, Debug, PartialEq, Eq)]
pub enum DeviceHandler {
    /// A block device.
    Block,
    /// A network device, with the limiters on what the guest receives and on
    /// what it sends.
    Net { rx_rate_limiter: RateLimiter, tx_rate_limiter: RateLimiter },
    /// A vsock device.
    Vsock,
}

impl DeviceHandler {
    /// This handler after the buckets of its limiters were replaced by those
    /// that are given; a bucket for which none is given stays, and so does a
    /// handler that has no limiters.
    pub open spec fn patched(
        self,
        rx_bytes: Option<TokenBucket>,
        rx_ops: Option<TokenBucket>,
        tx_bytes: Option<TokenBucket>,
        tx_ops: Option<TokenBucket>,
    ) -> DeviceHandler {
        match self {
            DeviceHandler::Net { rx_rate_limiter, tx_rate_limiter } => DeviceHandler::Net {
                rx_rate_limiter: rx_rate_limiter.patched(rx_bytes, rx_ops),
                tx_rate_limiter: tx_rate_limiter.patched(tx_bytes, tx_ops),
            },
            other => other,
        }
    }
}

/// The device that listens behind a handler.
#[derive(Debug, PartialEq, Eq)]
pub struct DeviceHandlerSlot {
    /// The virtio type of the device.
    pub type_id: u32,
    /// The name by which the device is known.
    pub device_id: String,
    /// The place in the dispatch table of the device's first event.
    pub first_token: u64,
    /// What the handler holds of the device.
    pub handler: DeviceHandler,
}

/// What a device needs to know of its place on the dispatcher.
#[derive(Clone, Copy, Debug, PartialEq, Eq, Structural)]
pub struct EpollConfig {
    /// The place in the dispatch table of the device's first event.
    pub first_token: u64,
    /// The place of the device's handler.
    pub handler: usize,
}

/// What a dispatcher holds.
pub struct EpollView {
    /// The tokens, each at the place that an event names.
    pub dispatch_table: Seq<Option<EpollDispatch>>,
    /// The devices with a handler, in the order in which they came.
    pub device_handlers: Seq<DeviceHandlerSlot>,
}

/// The tokens of `count` events of the device behind the handler `handler`.
pub open spec fn device_tokens(handler: usize, count: nat) -> Seq<Option<EpollDispatch>> {
    Seq::new(count, |i: int| Some(EpollDispatch::DeviceHandler(handler, i as u16)))
}

impl EpollView {
    /// The dispatch table has its first place, the one that is kept for the
    /// standard input.
    pub open spec fn wf(self) -> bool {
        self.dispatch_table.len() > 0
    }

    /// The dispatcher after `count` events were set aside for a device without
    /// a name.
    pub open spec fn with_tokens(self, count: nat) -> Seq<Option<EpollDispatch>> {
        self.dispatch_table + device_tokens(self.device_handlers.len() as usize, count)
    }

    /// The dispatcher after `count` events were set aside for the device of
    /// type `type_id` that is known as `device_id`, with `handler` to listen
    /// for them.
    pub open spec fn with_device(
        self,
        type_id: u32,
        device_id: String,
        count: nat,
        handler: DeviceHandler,
    ) -> EpollView {
        EpollView {
            dispatch_table: self.with_tokens(count),
            device_handlers: self.device_handlers.push(
                DeviceHandlerSlot {
                    type_id,
                    device_id,
                    first_token: self.dispatch_table.len() as u64,
                    handler,
                },
            ),
        }
    }

    /// The dispatcher after `token` was put at the end of its table.
    pub open spec fn with_token(self, token: EpollDispatch) -> EpollView {
        EpollView { dispatch_table: self.dispatch_table.push(Some(token)), ..self }
    }

    /// Whether the handler at `i` listens for the device of type `type_id`
    /// that is known as `id`.
    pub open spec fn listens(self, i: int, type_id: u32, id: Seq<char>) -> bool {
        &&& 0 <= i < self.device_handlers.len()
        &&& self.device_handlers[i].type_id == type_id
        &&& self.device_handlers[i].device_id@ == id
    }

    /// Whether a device of the type `type_id` has a handler under `id`.
    pub open spec fn has_handler(self, type_id: u32, id: Seq<char>) -> bool {
        exists|i: int| #[trigger] self.listens(i, type_id, id)
    }

    /// Whether the handler at `i` is the one that was registered last for the
    /// device of type `type_id` that is known as `id`.
    pub open spec fn is_latest_handler(self, i: int, type_id: u32, id: Seq<char>) -> bool {
        &&& self.listens(i, type_id, id)
        &&& forall|j: int| i < j ==> !#[trigger] self.listens(j, type_id, id)
    }

    /// The place of the handler that was registered last for the device of
    /// type `type_id` that is known as `id`.
    pub open spec fn latest_handler(self, type_id: u32, id: Seq<char>) -> int {
        choose|i: int| self.is_latest_handler(i, type_id, id)
    }

    /// There is one latest handler at most.
    pub proof fn lemma_latest_handler(self, i: int, type_id: u32, id: Seq<char>)
        requires
            self.is_latest_handler(i, type_id, id),
        ensures
            self.latest_handler(type_id, id) == i,
            self.has_handler(type_id, id),
    {
        let k = self.latest_handler(type_id, id);
        assert(self.is_latest_handler(k, type_id, id));
        if k < i {
            assert(!self.listens(i, type_id, id));
        } else if i < k {
            assert(!self.listens(k, type_id, id));
        }
    }

    /// Why the limiters of the network device `id` cannot be patched, if they
    /// cannot.
    pub open spec fn patch_error(self, id: Seq<char>) -> Option<EpollError> {
        if !self.has_handler(crate::devices::TYPE_NET, id) {
            Some(EpollError::DeviceEventHandlerNotFound)
        } else if !(self.device_handlers[self.latest_handler(crate::devices::TYPE_NET, id)].handler
            is Net) {
            Some(EpollError::DeviceEventHandlerInvalidDowncast)
        } else {
            None
        }
    }

    /// The dispatcher after the limiters of the network device `id` were
    /// patched.
    pub open spec fn patched(
        self,
        id: Seq<char>,
        rx_bytes: Option<TokenBucket>,
        rx_ops: Option<TokenBucket>,
        tx_bytes: Option<TokenBucket>,
        tx_ops: Option<TokenBucket>,
    ) -> EpollView {
        let i = self.latest_handler(crate::devices::TYPE_NET, id);
        let slot = self.device_handlers[i];
        EpollView {
            device_handlers: self.device_handlers.update(
                i,
                DeviceHandlerSlot {
                    handler: slot.handler.patched(rx_bytes, rx_ops, tx_bytes, tx_ops),
                    ..slot
                },
            ),
            ..self
        }
    }

    /// What the event at the place `index` means; nothing where the place is
    /// empty or outside the table.
    pub open spec fn token_at(self, index: u64) -> Option<EpollDispatch> {
        if index < self.dispatch_table.len() {
            self.dispatch_table[index as int]
        } else {
            None
        }
    }
}

/// One patch of the limiters of a network device: new buckets for what the
/// guest receives and for what it sends, each optional.
pub struct LimiterPatch {
    /// The new bucket for the bytes that the guest receives.
    pub rx_bytes: Option<TokenBucket>,
    /// The new bucket for the operations by which the guest receives.
    pub rx_ops: Option<TokenBucket>,
    /// The new bucket for the bytes that the guest sends.
    pub tx_bytes: Option<TokenBucket>,
    /// The new bucket for the operations by which the guest sends.
    pub tx_ops: Option<TokenBucket>,
}

/// The bucket in force after each of `named` was laid, in turn, over the
/// bucket `before`: the last of `named` that is a bucket, or `before` where
/// none is.
pub open spec fn most_recent(named: Seq<Option<TokenBucket>>, before: Option<TokenBucket>)
    -> Option<TokenBucket>
    decreases named.len(),
{
    if named.len() == 0 {
        before
    } else if named.last() is Some {
        named.last()
    } else {
        most_recent(named.drop_last(), before)
    }
}

/// What one more patch does to the bucket that `pick` takes from a patch.
proof fn lemma_most_recent_step(
    patches: Seq<LimiterPatch>,
    pick: spec_fn(LimiterPatch) -> Option<TokenBucket>,
)
    requires
        patches.len() > 0,
    ensures
        forall|before: Option<TokenBucket>| #[trigger]
            most_recent(patches.map_values(pick), before) == if pick(patches.last()) is Some {
                pick(patches.last())
            } else {
                most_recent(patches.drop_last().map_values(pick), before)
            },
{
    let named = patches.map_values(pick);
    assert(named.last() == pick(patches.last()));
    assert(named.drop_last() =~= patches.drop_last().map_values(pick));
}

impl EpollView {
    /// The dispatcher after each of `patches` was applied, in turn, to the
    /// limiters of the network device `id`.
    pub open spec fn patched_all(self, id: Seq<char>, patches: Seq<LimiterPatch>) -> EpollView
        decreases patches.len(),
    {
        if patches.len() == 0 {
            self
        } else {
            let last = patches.last();
            self.patched_all(id, patches.drop_last()).patched(
                id,
                last.rx_bytes,
                last.rx_ops,
                last.tx_bytes,
                last.tx_ops,
            )
        }
    }

    /// A patch touches neither the dispatch table nor which device listens
    /// where; so the handler that it reaches is the same before and after.
    pub proof fn lemma_patched_keeps_devices(
        self,
        id: Seq<char>,
        rx_bytes: Option<TokenBucket>,
        rx_ops: Option<TokenBucket>,
        tx_bytes: Option<TokenBucket>,
        tx_ops: Option<TokenBucket>,
    )
        requires
            self.patch_error(id) is None,
        ensures
            self.patched(id, rx_bytes, rx_ops, tx_bytes, tx_ops).patch_error(id) is None,
            self.patched(id, rx_bytes, rx_ops, tx_bytes, tx_ops).latest_handler(
                crate::devices::TYPE_NET,
                id,
            ) == self.latest_handler(crate::devices::TYPE_NET, id),
            self.patched(id, rx_bytes, rx_ops, tx_bytes, tx_ops).dispatch_table
                == self.dispatch_table,
            self.patched(id, rx_bytes, rx_ops, tx_bytes, tx_ops).device_handlers.len()
                == self.device_handlers.len(),
    {
        let net = crate::devices::TYPE_NET;
        let after = self.patched(id, rx_bytes, rx_ops, tx_bytes, tx_ops);
        let i = self.latest_handler(net, id);
        let w = choose|w: int| self.listens(w, net, id);
        assert(self.listens(w, net, id));
        self.lemma_some_latest(net, id, w, self.device_handlers.len() as int);
        assert(self.is_latest_handler(i, net, id));
        assert forall|j: int| 0 <= j < self.device_handlers.len() implies (after.listens(j, net, id)
            <==> self.listens(j, net, id)) by {
        }
        assert(after.listens(i, net, id));
        assert forall|j: int| i < j implies !#[trigger] after.listens(j, net, id) by {
            assert(!self.listens(j, net, id));
        }
        after.lemma_latest_handler(i, net, id);
    }

    /// Where some handler below `bound` listens for a device, one of them is
    /// the latest.
    pub proof fn lemma_some_latest(self, type_id: u32, id: Seq<char>, witness: int, bound: int)
        requires
            self.listens(witness, type_id, id),
            witness < bound,
            forall|j: int| bound <= j ==> !#[trigger] self.listens(j, type_id, id),
        ensures
            exists|i: int| self.is_latest_handler(i, type_id, id),
            self.is_latest_handler(self.latest_handler(type_id, id), type_id, id),
        decreases bound - witness,
    {
        if self.listens(bound - 1, type_id, id) {
            assert(self.is_latest_handler(bound - 1, type_id, id));
        } else {
            assert forall|j: int| bound - 1 <= j implies !#[trigger] self.listens(j, type_id, id) by {
                if j > bound - 1 {
                    assert(!self.listens(j, type_id, id));
                }
            }
            self.lemma_some_latest(type_id, id, witness, bound - 1);
        }
    }

    /// After any number of patches of the limiters of one network device,
    /// what the device holds of each bucket is what the most recent patch
    /// that names the bucket gave; nothing of the patches before it shows. A
    /// bucket that no patch names is as it was.
    pub proof fn lemma_most_recent_buckets_observable(
        self,
        id: Seq<char>,
        patches: Seq<LimiterPatch>,
    )
        requires
            self.patch_error(id) is None,
        ensures
            self.patched_all(id, patches).patch_error(id) is None,
            self.patched_all(id, patches).latest_handler(crate::devices::TYPE_NET, id)
                == self.latest_handler(crate::devices::TYPE_NET, id),
            self.device_handlers[self.latest_handler(crate::devices::TYPE_NET, id)].handler matches DeviceHandler::Net {
                rx_rate_limiter,
                tx_rate_limiter,
            } && self.patched_all(id, patches).device_handlers[self.latest_handler(
                crate::devices::TYPE_NET,
                id,
            )].handler == (DeviceHandler::Net {
                rx_rate_limiter: RateLimiter {
                    bandwidth: most_recent(
                        patches.map_values(|p: LimiterPatch| p.rx_bytes),
                        rx_rate_limiter.bandwidth,
                    ),
                    ops: most_recent(
                        patches.map_values(|p: LimiterPatch| p.rx_ops),
                        rx_rate_limiter.ops,
                    ),
                },
                tx_rate_limiter: RateLimiter {
                    bandwidth: most_recent(
                        patches.map_values(|p: LimiterPatch| p.tx_bytes),
                        tx_rate_limiter.bandwidth,
                    ),
                    ops: most_recent(
                        patches.map_values(|p: LimiterPatch| p.tx_ops),
                        tx_rate_limiter.ops,
                    ),
                },
            }),
        decreases patches.len(),
    {
        let net = crate::devices::TYPE_NET;
        let i = self.latest_handler(net, id);
        let w = choose|w: int| self.listens(w, net, id);
        assert(self.listens(w, net, id));
        self.lemma_some_latest(net, id, w, self.device_handlers.len() as int);
        assert(self.listens(i, net, id));
        assert(self.device_handlers[i].handler is Net);
        self.lemma_patched_all_keeps_devices(id, patches);
        if patches.len() > 0 {
            let earlier = patches.drop_last();
            let last = patches.last();
            self.lemma_most_recent_buckets_observable(id, earlier);
            let before = self.patched_all(id, earlier);
            before.lemma_patched_keeps_devices(
                id,
                last.rx_bytes,
                last.rx_ops,
                last.tx_bytes,
                last.tx_ops,
            );
            assert(before.latest_handler(net, id) == i);
            let after = before.patched(id, last.rx_bytes, last.rx_ops, last.tx_bytes, last.tx_ops);
            assert(after == self.patched_all(id, patches));
            assert(after.device_handlers[i].handler == before.device_handlers[i].handler.patched(
                last.rx_bytes,
                last.rx_ops,
                last.tx_bytes,
                last.tx_ops,
            ));
            lemma_most_recent_step(patches, |p: LimiterPatch| p.rx_bytes);
            lemma_most_recent_step(patches, |p: LimiterPatch| p.rx_ops);
            lemma_most_recent_step(patches, |p: LimiterPatch| p.tx_bytes);
            lemma_most_recent_step(patches, |p: LimiterPatch| p.tx_ops);
        } else {
            assert(patches.map_values(|p: LimiterPatch| p.rx_bytes).len() == 0);
            assert(patches.map_values(|p: LimiterPatch| p.rx_ops).len() == 0);
            assert(patches.map_values(|p: LimiterPatch| p.tx_bytes).len() == 0);
            assert(patches.map_values(|p: LimiterPatch| p.tx_ops).len() == 0);
        }
    }

    /// Patches touch neither the dispatch table nor which device listens
    /// where.
    pub proof fn lemma_patched_all_keeps_devices(self, id: Seq<char>, patches: Seq<LimiterPatch>)
        requires
            self.patch_error(id) is None,
        ensures
            self.patched_all(id, patches).patch_error(id) is None,
            self.patched_all(id, patches).latest_handler(crate::devices::TYPE_NET, id)
                == self.latest_handler(crate::devices::TYPE_NET, id),
            self.patched_all(id, patches).dispatch_table == self.dispatch_table,
            self.patched_all(id, patches).device_handlers.len() == self.device_handlers.len(),
        decreases patches.len(),
    {
        if patches.len() > 0 {
            self.lemma_patched_all_keeps_devices(id, patches.drop_last());
            let last = patches.last();
            self.patched_all(id, patches.drop_last()).lemma_patched_keeps_devices(
                id,
                last.rx_bytes,
                last.rx_ops,
                last.tx_bytes,
                last.tx_ops,
            );
        }
    }
}

/// The dispatcher's bookkeeping.
#[derive(Debug)]
pub struct EpollContext {
    dispatch_table: Vec<Option<EpollDispatch>>,
    device_handlers: Vec<DeviceHandlerSlot>,
}

impl View for EpollContext {
    type V = EpollView;

    closed spec fn view(&self) -> EpollView {
        EpollView {
            dispatch_table: self.dispatch_table@,
            device_handlers: self.device_handlers@,
        }
    }
}

impl Clone for DeviceHandlerSlot {
    fn clone(&self) -> (r: Self)
        ensures
            r == *self,
    {
        DeviceHandlerSlot {
            type_id: self.type_id,
            device_id: self.device_id.clone(),
            first_token: self.first_token,
            handler: self.handler,
        }
    }
}

impl Clone for EpollContext {
    fn clone(&self) -> (r: Self)
        ensures
            r@ == self@,
    {
        let mut dispatch_table: Vec<Option<EpollDispatch>> = Vec::new();
        let mut i: usize = 0;
        while i < self.dispatch_table.len()
            invariant
                i <= self.dispatch_table.len(),
                dispatch_table@ == self.dispatch_table@.take(i as int),
            decreases self.dispatch_table.len() - i,
        {
            dispatch_table.push(self.dispatch_table[i]);
            assert(dispatch_table@ =~= self.dispatch_table@.take(i as int + 1));
            i = i + 1;
        }
        assert(self.dispatch_table@.take(i as int) =~= self.dispatch_table@);
        let mut device_handlers: Vec<DeviceHandlerSlot> = Vec::new();
        let mut k: usize = 0;
        while k < self.device_handlers.len()
            invariant
                k <= self.device_handlers.len(),
                device_handlers@ == self.device_handlers@.take(k as int),
            decreases self.device_handlers.len() - k,
        {
            device_handlers.push(self.device_handlers[k].clone());
            assert(device_handlers@ =~= self.device_handlers@.take(k as int + 1));
            k = k + 1;
        }
        assert(self.device_handlers@.take(k as int) =~= self.device_handlers@);
        EpollContext { dispatch_table, device_handlers }
    }
}

impl EpollContext {
    /// A dispatcher without devices. The first place of its dispatch table is
    /// kept for the standard input and is empty at first.
    pub fn new() -> (r: Self)
        ensures
            r@.wf(),
            r@.dispatch_table == seq![None::<EpollDispatch>],
            r@.device_handlers == Seq::<DeviceHandlerSlot>::empty(),
    {
        let mut dispatch_table: Vec<Option<EpollDispatch>> = Vec::new();
        dispatch_table.push(None);
        EpollContext { dispatch_table, device_handlers: Vec::new() }
    }

    /// Gives the standard input its place in the dispatch table, or takes it
    /// away.
    pub fn set_stdin_event(&mut self, enabled: bool)
        requires
            old(self)@.wf(),
        ensures
            final(self)@ == (EpollView {
                dispatch_table: old(self)@.dispatch_table.update(
                    0,
                    if enabled {
                        Some(EpollDispatch::Stdin)
                    } else {
                        None
                    },
                ),
                ..old(self)@
            }),
    {
        let token = if enabled {
            Some(EpollDispatch::Stdin)
        } else {
            None
        };
        self.dispatch_table.set(0, token);
    }

    /// Puts `token` at the end of the dispatch table and returns its place.
    pub fn add_epollin_event(&mut self, token: EpollDispatch) -> (r: u64)
        ensures
            r == old(self)@.dispatch_table.len(),
            final(self)@ == (EpollView {
                dispatch_table: old(self)@.dispatch_table.push(Some(token)),
                ..old(self)@
            }),
    {
        let index = self.dispatch_table.len() as u64;
        self.dispatch_table.push(Some(token));
        index
    }

    /// Sets `count` places of the dispatch table aside for the events of a new
    /// device of type `type_id`, known as `device_id`, and registers `handler`
    /// to listen for them.
    pub fn allocate_tokens_for_virtio_device(
        &mut self,
        type_id: u32,
        device_id: String,
        count: usize,
        handler: DeviceHandler,
    ) -> (r: EpollConfig)
        requires
            count <= MAX_DEVICE_EVENTS,
        ensures
            r.first_token == old(self)@.dispatch_table.len(),
            r.handler == old(self)@.device_handlers.len(),
            final(self)@ == old(self)@.with_device(type_id, device_id, count as nat, handler),
    {
        let first_token = self.dispatch_table.len() as u64;
        let place = self.device_handlers.len();
        let mut i: usize = 0;
        while i < count
            invariant
                i <= count,
                count <= MAX_DEVICE_EVENTS,
                self.device_handlers@ == old(self).device_handlers@,
                place == self.device_handlers@.len(),
                self.dispatch_table@ == old(self).dispatch_table@ + device_tokens(place, i as nat),
            decreases count - i,
        {
            self.dispatch_table.push(Some(EpollDispatch::DeviceHandler(place, i as u16)));
            assert(self.dispatch_table@ =~= old(self).dispatch_table@ + device_tokens(
                place,
                (i + 1) as nat,
            ));
            i = i + 1;
        }
        self.device_handlers.push(DeviceHandlerSlot { type_id, device_id, first_token, handler });
        EpollConfig { first_token, handler: place }
    }

    /// The place of the handler that was registered last for the device of
    /// type `type_id` that is known as `device_id`.
    pub fn get_device_handler_by_device_id(&self, type_id: u32, device_id: &str) -> (r: Result<
        usize,
        EpollError,
    >)
        ensures
            match r {
                Ok(i) => self@.has_handler(type_id, device_id@) && i == self@.latest_handler(
                    type_id,
                    device_id@,
                ) && i < self@.device_handlers.len(),
                Err(e) => e == EpollError::DeviceEventHandlerNotFound && !self@.has_handler(
                    type_id,
                    device_id@,
                ),
            },
    {
        let mut i: usize = self.device_handlers.len();
        while i > 0
            invariant
                i <= self.device_handlers.len(),
                forall|j: int| i <= j ==> !#[trigger] self@.listens(j, type_id, device_id@),
            decreases i,
        {
            i = i - 1;
            if self.device_handlers[i].type_id == type_id && self.device_handlers[i].device_id.as_str().eq(
                device_id,
            ) {
                proof {
                    assert(self@.listens(i as int, type_id, device_id@));
                    self@.lemma_latest_handler(i as int, type_id, device_id@);
                }
                return Ok(i);
            }
        }
        Err(EpollError::DeviceEventHandlerNotFound)
    }

    /// The handlers, in the order in which they were registered.
    pub fn device_handlers(&self) -> (r: &Vec<DeviceHandlerSlot>)
        ensures
            r@ == self@.device_handlers,
    {
        &self.device_handlers
    }

    /// Replaces buckets of the limiters of the network device that is known as
    /// `iface_id`: those on what the guest receives by `rx_bytes` and `rx_ops`,
    /// those on what it sends by `tx_bytes` and `tx_ops`. A bucket for which
    /// none is given stays as it is. Where the device has no handler, or one
    /// of another kind, nothing changes.
    pub fn patch_rate_limiters(
        &mut self,
        iface_id: &str,
        rx_bytes: Option<TokenBucket>,
        rx_ops: Option<TokenBucket>,
        tx_bytes: Option<TokenBucket>,
        tx_ops: Option<TokenBucket>,
    ) -> (r: Result<(), EpollError>)
        ensures
            match r {
                Ok(()) => old(self)@.patch_error(iface_id@) is None && final(self)@ == old(
                    self,
                )@.patched(iface_id@, rx_bytes, rx_ops, tx_bytes, tx_ops),
                Err(e) => old(self)@.patch_error(iface_id@) == Some(e) && final(self)@ == old(
                    self,
                )@,
            },
    {
        let i = match self.get_device_handler_by_device_id(crate::devices::TYPE_NET, iface_id) {
            Err(e) => {
                return Err(e);
            },
            Ok(i) => i,
        };
        match self.device_handlers[i].handler {
            DeviceHandler::Net { rx_rate_limiter, tx_rate_limiter } => {
                let mut rx = rx_rate_limiter;
                let mut tx = tx_rate_limiter;
                rx.update_buckets(rx_bytes, rx_ops);
                tx.update_buckets(tx_bytes, tx_ops);
                let slot = DeviceHandlerSlot {
                    type_id: self.device_handlers[i].type_id,
                    device_id: self.device_handlers[i].device_id.clone(),
                    first_token: self.device_handlers[i].first_token,
                    handler: DeviceHandler::Net { rx_rate_limiter: rx, tx_rate_limiter: tx },
                };
                self.device_handlers.set(i, slot);
                Ok(())
            },
            _ => Err(EpollError::DeviceEventHandlerInvalidDowncast),
        }
    }

    /// The first place of the dispatch table at which `token` stands, if it
    /// stands anywhere.
    pub fn token_index(&self, token: EpollDispatch) -> (r: Option<u64>)
        ensures
            match r {
                Some(index) => self@.token_at(index) == Some(token) && forall|j: int|
                    0 <= j < index ==> #[trigger] self@.dispatch_table[j] != Some(token),
                None => forall|j: int|
                    0 <= j < self@.dispatch_table.len() ==> #[trigger] self@.dispatch_table[j]
                        != Some(token),
            },
    {
        let mut i: usize = 0;
        while i < self.dispatch_table.len()
            invariant
                i <= self.dispatch_table.len(),
                forall|j: int| 0 <= j < i ==> #[trigger] self.dispatch_table@[j] != Some(token),
            decreases self.dispatch_table.len() - i,
        {
            if let Some(found) = self.dispatch_table[i] {
                if found == token {
                    return Some(i as u64);
                }
            }
            i = i + 1;
        }
        None
    }

    /// What the event at the place `index` of the dispatch table means.
    pub fn dispatch(&self, index: u64) -> (r: Option<EpollDispatch>)
        ensures
            r == self@.token_at(index),
    {
        if index < self.dispatch_table.len() as u64 {
            self.dispatch_table[index as usize]
        } else {
            None
        }
    }
}

} // verus!
