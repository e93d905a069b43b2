//! Interrupt handling of the peripheral interrupt controller: the table of registered handlers,
//! the enable registers, and the dispatch of pending IRQs.

use vstd::prelude::*;

verus! {

/// Number of peripheral IRQs.
pub const NUM_PERIPHERAL_IRQS: usize = 64;

/// A registered IRQ handler: a name, and the number by which the kernel finds the handler to
/// call.
#[derive(Copy, Clone)]
pub struct IRQDescriptor {
    pub name: &'static str,
    pub handler: usize,
}

/// Bit `i` of `mask` is set.
pub open spec fn bit_set(mask: u64, i: int) -> bool {
    (mask >> (i as u64)) & 1 == 1
}

/// Message of the error that an IRQ already has a handler.
pub open spec fn already_registered_message() -> Seq<char> {
    "IRQ handler already registered"@
}

/// Representation of the peripheral interrupt controller's handler table.
pub struct PeripheralIC {
    handler_table: Vec<Option<IRQDescriptor>>,
}

/// The enable register and bit that enable an IRQ.
#[derive(Copy, Clone, PartialEq, Eq, Structural)]
pub enum EnableRegister {
    /// IRQs 0 to 31.
    Enable1,
    /// IRQs 32 to 63.
    Enable2,
}

impl PeripheralIC {
    /// The handler registered for each IRQ, if any.
    pub closed spec fn handlers(self) -> Seq<Option<IRQDescriptor>> {
        self.handler_table@
    }

    /// The table holds one entry per peripheral IRQ.
    pub open spec fn wf(self) -> bool {
        self.handlers().len() == NUM_PERIPHERAL_IRQS
    }

    /// Create an instance, with no handler registered.
    pub fn new() -> (r: Self)
        ensures
            r.handlers() == Seq::new(NUM_PERIPHERAL_IRQS as nat, |i: int| None::<IRQDescriptor>),
    {
        let mut handler_table: Vec<Option<IRQDescriptor>> = Vec::new();
        let mut i: usize = 0;
        while i < NUM_PERIPHERAL_IRQS
            invariant
                0 <= i <= NUM_PERIPHERAL_IRQS,
                handler_table@ == Seq::new(i as nat, |j: int| None::<IRQDescriptor>),
            decreases NUM_PERIPHERAL_IRQS - i,
        {
            handler_table.push(None);
            i = i + 1;
        }
        Self { handler_table }
    }

    /// Register a handler for an IRQ that has none yet.
    pub fn register_handler(&mut self, irq_number: usize, descriptor: IRQDescriptor) -> (r: Result<
        (),
        &'static str,
    >)
        requires
            irq_number < NUM_PERIPHERAL_IRQS,
            old(self).wf(),
        ensures
            final(self).wf(),
            register_post(old(self).handlers(), irq_number, descriptor, final(self).handlers(), r),
    {
        if self.handler_table[irq_number].is_some() {
            return Err("IRQ handler already registered");
        }
        self.handler_table.set(irq_number, Some(descriptor));
        Ok(())
    }

    /// The enable register and the value to write into it to enable an IRQ. Writing a 1 to a bit
    /// sets the corresponding enable bit and leaves all others unaffected.
    pub fn enable(irq_number: usize) -> (r: (EnableRegister, u32))
        requires
            irq_number < NUM_PERIPHERAL_IRQS,
        ensures
            irq_number <= 31 ==> r.0 == EnableRegister::Enable1,
            irq_number > 31 ==> r.0 == EnableRegister::Enable2,
            r.1 == 1u32 << ((irq_number % 32) as u32),
    {
        let enable_reg = if irq_number <= 31 {
            EnableRegister::Enable1
        } else {
            EnableRegister::Enable2
        };
        let enable_bit: u32 = 1u32 << ((irq_number % 32) as u32);
        (enable_reg, enable_bit)
    }

    /// The pending IRQs, as a 64-bit mask, from the two pending registers.
    pub fn get_pending(pending_1: u32, pending_2: u32) -> (r: u64)
        ensures
            forall|i: int| 0 <= i < 32 ==> bit_set(r, i) == bit_set(pending_1 as u64, i),
            forall|i: int| 32 <= i < 64 ==> bit_set(r, i) == bit_set(pending_2 as u64, i - 32),
    {
        let r = ((pending_2 as u64) << 32u64) | (pending_1 as u64);
        proof {
            assert forall|i: int| 0 <= i < 32 implies bit_set(r, i) == bit_set(pending_1 as u64, i)
                by {
                let k = i as u64;
                assert(k < 32 ==> (((((pending_2 as u64) << 32u64) | (pending_1 as u64)) >> k) & 1
                    == 1) == ((((pending_1 as u64) >> k) & 1) == 1)) by (bit_vector);
            }
            assert forall|i: int| 32 <= i < 64 implies bit_set(r, i) == bit_set(
                pending_2 as u64,
                i - 32,
            ) by {
                let k = i as u64;
                assert(32 <= k < 64 ==> (((((pending_2 as u64) << 32u64) | (pending_1 as u64)) >> k)
                    & 1 == 1) == ((((pending_2 as u64) >> ((k - 32) as u64)) & 1) == 1)) by (bit_vector);
            }
        }
        r
    }

    /// The names of the registered handlers, with their IRQ numbers, in ascending order.
    pub fn registered_handlers(&self) -> (r: Vec<(usize, &'static str)>)
        ensures
            registered_list(self.handlers(), r@),
    {
        let mut r: Vec<(usize, &'static str)> = Vec::new();
        let mut i: usize = 0;
        while i < self.handler_table.len()
            invariant
                0 <= i <= self.handler_table@.len(),
                self.handler_table@ == self.handlers(),
                registered_prefix(self.handlers(), i as int, r@),
            decreases self.handler_table.len() - i,
        {
            let ghost old_r = r@;
            if let Some(d) = &self.handler_table[i] {
                r.push((i, d.name));
            }
            proof {
                let table = self.handlers();
                assert forall|j: int|
                    0 <= j < i + 1 && #[trigger] table[j] is Some implies exists|k: int|
                    0 <= k < r@.len() && r@[k].0 == j by {
                    if j < i {
                        let k = choose|k: int| 0 <= k < old_r.len() && old_r[k].0 == j;
                        assert(r@[k] == old_r[k]);
                    } else {
                        assert(r@[r@.len() - 1].0 == j);
                    }
                }
            }
            i = i + 1;
        }
        r
    }
}

/// `list` holds, in ascending order of IRQ number, exactly the IRQs below `n` that have a handler
/// in `table`, each with its handler's name.
pub open spec fn registered_prefix(
    table: Seq<Option<IRQDescriptor>>,
    n: int,
    list: Seq<(usize, &'static str)>,
) -> bool {
    &&& forall|k: int| 0 <= k < list.len() ==> {
        &&& 0 <= (#[trigger] list[k]).0 < n
        &&& table[list[k].0 as int] is Some
        &&& table[list[k].0 as int]->0.name == list[k].1
    }
    &&& forall|k: int, l: int| 0 <= k < l < list.len() ==> list[k].0 < list[l].0
    &&& forall|i: int|
        0 <= i < n && #[trigger] table[i] is Some ==> exists|k: int|
            0 <= k < list.len() && list[k].0 == i
}

/// `list` holds, in ascending order, every IRQ of `table` that has a handler, with its name.
pub open spec fn registered_list(
    table: Seq<Option<IRQDescriptor>>,
    list: Seq<(usize, &'static str)>,
) -> bool {
    registered_prefix(table, table.len() as int, list)
}

/// The IRQs from `i` on whose bit is set in `mask`, in ascending order.
pub open spec fn pending_from(mask: u64, i: int) -> Seq<usize>
    decreases NUM_PERIPHERAL_IRQS - i,
{
    if i >= NUM_PERIPHERAL_IRQS || i < 0 {
        Seq::empty()
    } else if bit_set(mask, i) {
        seq![i as usize] + pending_from(mask, i + 1)
    } else {
        pending_from(mask, i + 1)
    }
}

/// The IRQs from `i` on whose bit is set lie between `i` and the last IRQ, have their bit set,
/// and ascend strictly; every IRQ from `i` on whose bit is set is among them.
pub proof fn lemma_pending_from(mask: u64, i: int)
    requires
        0 <= i,
    ensures
        forall|k: int|
            0 <= k < pending_from(mask, i).len() ==> i <= #[trigger] pending_from(mask, i)[k]
                < NUM_PERIPHERAL_IRQS && bit_set(mask, pending_from(mask, i)[k] as int),
        forall|k: int, l: int|
            0 <= k < l < pending_from(mask, i).len() ==> pending_from(mask, i)[k] < pending_from(
                mask,
                i,
            )[l],
        forall|n: int|
            i <= n < NUM_PERIPHERAL_IRQS && bit_set(mask, n) ==> pending_from(mask, i).contains(
                n as usize,
            ),
    decreases NUM_PERIPHERAL_IRQS - i,
{
    if i < NUM_PERIPHERAL_IRQS {
        lemma_pending_from(mask, i + 1);
        let rest = pending_from(mask, i + 1);
        if bit_set(mask, i) {
            let all = pending_from(mask, i);
            assert(all =~= seq![i as usize] + rest);
            assert forall|k: int| 0 <= k < all.len() implies i <= #[trigger] all[k]
                < NUM_PERIPHERAL_IRQS && bit_set(mask, all[k] as int) by {
                if k > 0 {
                    assert(all[k] == rest[k - 1]);
                }
            }
            assert forall|k: int, l: int| 0 <= k < l < all.len() implies all[k] < all[l] by {
                if k > 0 {
                    assert(all[k] == rest[k - 1]);
                }
                assert(all[l] == rest[l - 1]);
            }
            assert forall|n: int|
                i <= n < NUM_PERIPHERAL_IRQS && bit_set(mask, n) implies all.contains(n as usize) by {
                if n == i {
                    assert(all[0] == n);
                } else {
                    let k = choose|k: int| 0 <= k < rest.len() && rest[k] == n as usize;
                    assert(all[k + 1] == n as usize);
                }
            }
        }
    }
}

/// The pending IRQs of `mask`, in ascending order.
pub open spec fn pending_irqs(mask: u64) -> Seq<usize> {
    pending_from(mask, 0)
}

/// The IRQ numbers whose bit is set in the pending mask, in ascending order.
pub fn pending_irq_numbers(mask: u64) -> (r: Vec<usize>)
    ensures
        r@ == pending_irqs(mask),
        forall|k: int| 0 <= k < r@.len() ==> #[trigger] r@[k] < NUM_PERIPHERAL_IRQS && bit_set(mask, r@[k] as int),
        forall|k: int, l: int| 0 <= k < l < r@.len() ==> r@[k] < r@[l],
        forall|n: int| 0 <= n < NUM_PERIPHERAL_IRQS && bit_set(mask, n) ==> r@.contains(n as usize),
{
    proof { lemma_pending_from(mask, 0); }
    let mut r: Vec<usize> = Vec::new();
    let mut i: usize = 0;
    while i < NUM_PERIPHERAL_IRQS
        invariant
            0 <= i <= NUM_PERIPHERAL_IRQS,
            r@ + pending_from(mask, i as int) == pending_irqs(mask),
        decreases NUM_PERIPHERAL_IRQS - i,
    {
        let ghost before = r@;
        if (mask >> (i as u64)) & 1 == 1 {
            r.push(i);
            proof {
                assert(before + pending_from(mask, i as int) =~= r@ + pending_from(
                    mask,
                    i + 1,
                ));
            }
        }
        i = i + 1;
    }
    proof {
        assert(r@ + pending_from(mask, i as int) =~= r@);
    }
    r
}

/// Dispatching the pending IRQs `pending` in order: the handlers to call, up to the first IRQ
/// that has none, and that IRQ if there is one.
pub open spec fn dispatch(table: Seq<Option<IRQDescriptor>>, pending: Seq<usize>) -> (
    Seq<IRQDescriptor>,
    Option<usize>,
)
    decreases pending.len(),
{
    if pending.len() == 0 {
        (Seq::empty(), None)
    } else if table[pending[0] as int] is None {
        (Seq::empty(), Some(pending[0]))
    } else {
        let rest = dispatch(table, pending.drop_first());
        (seq![table[pending[0] as int]->0] + rest.0, rest.1)
    }
}

impl PeripheralIC {
    /// Handle the pending IRQs of `pending_mask`, in ascending order: the handlers to call, in
    /// order, up to the first pending IRQ that has no handler, and that IRQ, for which no handler
    /// is registered, if there is one.
    pub fn handle_pending_irqs(&self, pending_mask: u64) -> (r: (Vec<IRQDescriptor>, Option<usize>))
        requires
            self.wf(),
        ensures
            (r.0@, r.1) == dispatch(self.handlers(), pending_irqs(pending_mask)),
    {
        let pending = pending_irq_numbers(pending_mask);
        let mut handlers: Vec<IRQDescriptor> = Vec::new();
        let mut j: usize = 0;
        proof { assert(pending@.skip(0) =~= pending@); }
        while j < pending.len()
            invariant
                0 <= j <= pending@.len(),
                self.wf(),
                pending@ == pending_irqs(pending_mask),
                forall|k: int| 0 <= k < pending@.len() ==> #[trigger] pending@[k] < NUM_PERIPHERAL_IRQS,
                dispatch(self.handlers(), pending@) == (
                    handlers@ + dispatch(self.handlers(), pending@.skip(j as int)).0,
                    dispatch(self.handlers(), pending@.skip(j as int)).1,
                ),
            decreases pending.len() - j,
        {
            let irq_number = pending[j];
            let ghost rest = pending@.skip(j as int);
            proof {
                assert(rest[0] == irq_number);
                assert(rest.drop_first() =~= pending@.skip(j + 1));
            }
            match &self.handler_table[irq_number] {
                None => {
                    proof { assert(handlers@ + Seq::<IRQDescriptor>::empty() =~= handlers@); }
                    return (handlers, Some(irq_number));
                },
                Some(descriptor) => {
                    let ghost before = handlers@;
                    handlers.push(*descriptor);
                    proof {
                        let d = dispatch(self.handlers(), pending@.skip(j + 1));
                        assert(before + (seq![*descriptor] + d.0) =~= handlers@ + d.0);
                    }
                },
            }
            j = j + 1;
        }
        proof {
            assert(pending@.skip(j as int).len() == 0);
            assert(handlers@ + Seq::<IRQDescriptor>::empty() =~= handlers@);
        }
        (handlers, None)
    }
}

/// The outcome of registering `descriptor` for `irq_number` in table `old`, leaving table `new`
/// and returning `r`: an error, with the table unchanged, if the IRQ has a handler; else the
/// handler is entered.
pub open spec fn register_post(
    old: Seq<Option<IRQDescriptor>>,
    irq_number: usize,
    descriptor: IRQDescriptor,
    new: Seq<Option<IRQDescriptor>>,
    r: Result<(), &'static str>,
) -> bool {
    &&& old[irq_number as int] is Some <==> r is Err
    &&& r matches Err(e) ==> e@ == already_registered_message() && new == old
    &&& r is Ok ==> new == old.update(irq_number as int, Some(descriptor))
}

/// Once a handler is registered for an IRQ, registering another one for it fails and leaves the
/// first one in place; registering for another IRQ leaves it in place too.
pub proof fn lemma_registration_is_permanent(
    t0: Seq<Option<IRQDescriptor>>,
    irq: usize,
    d: IRQDescriptor,
    t1: Seq<Option<IRQDescriptor>>,
    irq2: usize,
    d2: IRQDescriptor,
    t2: Seq<Option<IRQDescriptor>>,
    r2: Result<(), &'static str>,
)
    requires
        t0.len() == NUM_PERIPHERAL_IRQS,
        irq < NUM_PERIPHERAL_IRQS,
        irq2 < NUM_PERIPHERAL_IRQS,
        register_post(t0, irq, d, t1, Ok(())),
        register_post(t1, irq2, d2, t2, r2),
    ensures
        t2[irq as int] == Some(d),
        irq2 == irq ==> r2 is Err,
{
}

/// After a handler is registered for an IRQ, the list of registered handlers holds the IRQ with
/// the handler's name.
pub proof fn lemma_registered_handler_listed(
    t0: Seq<Option<IRQDescriptor>>,
    irq: usize,
    d: IRQDescriptor,
    t1: Seq<Option<IRQDescriptor>>,
    list: Seq<(usize, &'static str)>,
)
    requires
        t0.len() == NUM_PERIPHERAL_IRQS,
        irq < NUM_PERIPHERAL_IRQS,
        register_post(t0, irq, d, t1, Ok(())),
        registered_list(t1, list),
    ensures
        exists|k: int| 0 <= k < list.len() && #[trigger] list[k] == (irq, d.name),
{
    assert(t1[irq as int] is Some);
    let k = choose|k: int| 0 <= k < list.len() && list[k].0 == irq;
    assert(list[k] == (irq, d.name));
}

/// When every pending IRQ has a handler, dispatch calls exactly their handlers, in the order of
/// the IRQs, and finds no IRQ without one.
pub proof fn lemma_dispatch_all_registered(table: Seq<Option<IRQDescriptor>>, pending: Seq<usize>)
    requires
        forall|k: int| 0 <= k < pending.len() ==> table[#[trigger] pending[k] as int] is Some,
    ensures
        dispatch(table, pending).1 is None,
        dispatch(table, pending).0 == pending.map_values(|i: usize| table[i as int]->0),
    decreases pending.len(),
{
    if pending.len() > 0 {
        assert(table[pending[0] as int] is Some);
        let rest = pending.drop_first();
        assert forall|k: int| 0 <= k < rest.len() implies table[#[trigger] rest[k] as int] is Some by {
            assert(rest[k] == pending[k + 1]);
        }
        lemma_dispatch_all_registered(table, rest);
        assert(dispatch(table, pending).0 =~= pending.map_values(|i: usize| table[i as int]->0));
    }
}

/// Distinct IRQs are enabled by distinct bits: different registers or different bits.
pub proof fn lemma_enable_bits_distinct(a: usize, b: usize)
    requires
        a < NUM_PERIPHERAL_IRQS,
        b < NUM_PERIPHERAL_IRQS,
        a != b,
        a <= 31 <==> b <= 31,
    ensures
        1u32 << ((a % 32) as u32) != 1u32 << ((b % 32) as u32),
{
    let x = (a % 32) as u32;
    let y = (b % 32) as u32;
    assert(x != y);
    assert(x < 32 && y < 32 && x != y ==> 1u32 << x != 1u32 << y) by (bit_vector);
}

/// An IRQ manager for boards that have none registered yet: every request to it is a fatal error.
pub struct NullIRQManager;

} // verus!
