//! The 64 KiB bus: backing memory plus per-address hooks that hand
//! reads and writes to a device.

use vstd::prelude::*;

verus! {

/// Whatever answers the hooked addresses of a bus: a display, a serial line, a timer.
///
/// One device serves every hook of a bus; it tells its registers apart by the
/// address it is handed, so a range of hooks shares one device state. A device whose
/// state other threads also see keeps that state behind its own lock; a device never
/// calls back into the bus, so no access waits on another.
///
/// `read_spec` names what `read` returns and `after_write` the state that `write`
/// leaves; an implementation outside verified code defines `read_spec` as a call of
/// `read`, and `after_write` as a copy of itself that has taken the write.
pub trait Device: Sized {
    /// The byte that a read at `address` returns in this state.
    spec fn read_spec(&self, address: u16) -> u8;

    /// The state after taking a write of `value` at `address`.
    spec fn after_write(&self, address: u16, value: u8) -> Self;

    /// Answers a read. Reading does not change what the device holds.
    fn read(&self, address: u16) -> (r: u8)
        ensures
            r == self.read_spec(address),
    ;

    /// Takes a write.
    fn write(&mut self, address: u16, value: u8)
        ensures
            *final(self) == old(self).after_write(address, value),
    ;
}

/// A device with nothing attached: reads give 0 and writes are dropped.
#[derive(Clone, Copy, Debug, PartialEq, Eq)]
pub struct NoDevice;

impl Device for NoDevice {
    open spec fn read_spec(&self, _address: u16) -> u8 {
        0
    }

    open spec fn after_write(&self, _address: u16, _value: u8) -> NoDevice {
        *self
    }

    fn read(&self, _address: u16) -> (r: u8) {
        0
    }

    fn write(&mut self, _address: u16, _value: u8) {
    }
}

/// Which accesses at an address go to the device.
#[derive(Clone, Copy, Debug, PartialEq, Eq)]
pub struct Hook {
    pub read: bool,
    pub write: bool,
}

/// Why a ROM image could not be placed.
#[derive(Clone, Copy, Debug, PartialEq, Eq)]
pub enum LoadError {
    /// The image would run past the end of the address space.
    OutOfRange,
}

/// Size of the address space.
pub const MEMORY_SIZE: usize = 0x10000;

pub struct Bus<D> {
    /// Backing memory, one byte per address.
    pub ram: [u8; 0x10000],
    /// The hook installed at each address, if any.
    pub hooks: [Option<Hook>; 0x10000],
    pub device: D,
}

/// `mem` after the writes `w`, in order.
pub open spec fn apply_writes(mem: Seq<u8>, w: Seq<(u16, u8)>) -> Seq<u8>
    decreases w.len(),
{
    if w.len() == 0 {
        mem
    } else {
        apply_writes(mem, w.drop_last()).update(w.last().0 as int, w.last().1)
    }
}

/// Whether the hook table `hooks` sends writes at `a` to the device.
pub open spec fn hooks_write(hooks: Seq<Option<Hook>>, a: u16) -> bool {
    match hooks[a as int] {
        Some(h) => h.write,
        None => false,
    }
}

/// The device `d` after the writes `w`, in order, of which it takes those that
/// `hooks` sends it.
pub open spec fn device_after<D: Device>(d: D, hooks: Seq<Option<Hook>>, w: Seq<(u16, u8)>) -> D
    decreases w.len(),
{
    if w.len() == 0 {
        d
    } else {
        let before = device_after(d, hooks, w.drop_last());
        if hooks_write(hooks, w.last().0) {
            before.after_write(w.last().0, w.last().1)
        } else {
            before
        }
    }
}

proof fn lemma_device_after_concat<D: Device>(
    d: D,
    hooks: Seq<Option<Hook>>,
    w1: Seq<(u16, u8)>,
    w2: Seq<(u16, u8)>,
)
    ensures
        device_after(device_after(d, hooks, w1), hooks, w2) == device_after(d, hooks, w1 + w2),
    decreases w2.len(),
{
    if w2.len() == 0 {
        assert(w1 + w2 =~= w1);
    } else {
        lemma_device_after_concat(d, hooks, w1, w2.drop_last());
        assert((w1 + w2).drop_last() =~= w1 + w2.drop_last());
    }
}

proof fn lemma_apply_writes_concat(mem: Seq<u8>, w1: Seq<(u16, u8)>, w2: Seq<(u16, u8)>)
    ensures
        apply_writes(apply_writes(mem, w1), w2) == apply_writes(mem, w1 + w2),
    decreases w2.len(),
{
    if w2.len() == 0 {
        assert(w1 + w2 =~= w1);
    } else {
        lemma_apply_writes_concat(mem, w1, w2.drop_last());
        assert((w1 + w2).drop_last() =~= w1 + w2.drop_last());
    }
}

impl<D: Device> Bus<D> {
    /// Whether a read at `a` goes to the device.
    pub open spec fn reads_hooked(&self, a: u16) -> bool {
        match self.hooks@[a as int] {
            Some(h) => h.read,
            None => false,
        }
    }

    /// Whether a write at `a` goes to the device as well as to memory.
    pub open spec fn writes_hooked(&self, a: u16) -> bool {
        hooks_write(self.hooks@, a)
    }

    /// The byte that a read at `a` returns.
    pub open spec fn peek(&self, a: u16) -> u8 {
        if self.reads_hooked(a) {
            self.device.read_spec(a)
        } else {
            self.ram@[a as int]
        }
    }

    /// `after` is this bus once the writes `w` have been made in order: memory holds them,
    /// the hooks are the same, and the device has taken, in order, each write made at an
    /// address with a write hook.
    pub open spec fn writes_to(&self, w: Seq<(u16, u8)>, after: Bus<D>) -> bool {
        &&& after.ram@ == apply_writes(self.ram@, w)
        &&& after.hooks@ == self.hooks@
        &&& after.device == device_after(self.device, self.hooks@, w)
    }

    pub fn new(device: D) -> (r: Bus<D>)
        ensures
            forall|a: int| 0 <= a < 0x10000 ==> r.ram@[a] == 0 && r.hooks@[a] is None,
            r.device == device,
    {
        Bus { ram: [0u8; 0x10000], hooks: [None; 0x10000], device }
    }

    /// Copies `rom` into memory from `address` on. Fails, changing nothing, where the
    /// image would run past the last address.
    pub fn load_rom_at(&mut self, rom: &[u8], address: u16) -> (r: Result<(), LoadError>)
        ensures
            r is Err <==> address as int + rom@.len() > 0x10000,
            r is Err ==> *final(self) == *old(self),
            r is Ok ==> final(self).ram@ == old(self).ram@.take(address as int) + rom@
                + old(self).ram@.skip(address as int + rom@.len()),
            final(self).hooks == old(self).hooks,
            final(self).device == old(self).device,
    {
        if rom.len() > MEMORY_SIZE - address as usize {
            return Err(LoadError::OutOfRange);
        }
        let start = address as usize;
        let mut i: usize = 0;
        while i < rom.len()
            invariant
                start == address as usize,
                start + rom@.len() <= 0x10000,
                i <= rom@.len(),
                self.hooks == old(self).hooks,
                self.device == old(self).device,
                forall|a: int| 0 <= a < 0x10000 ==> #[trigger] self.ram@[a] == if start <= a < start + i {
                    rom@[a - start]
                } else {
                    old(self).ram@[a]
                },
            decreases rom@.len() - i,
        {
            self.ram[start + i] = rom[i];
            i = i + 1;
        }
        assert(self.ram@ =~= old(self).ram@.take(address as int) + rom@ + old(self).ram@.skip(
            address as int + rom@.len(),
        ));
        Ok(())
    }

    /// Installs `hook` at `address`, replacing any hook there.
    pub fn add_hook(&mut self, address: u16, hook: Hook)
        ensures
            final(self).hooks@ == old(self).hooks@.update(address as int, Some(hook)),
            final(self).ram == old(self).ram,
            final(self).device == old(self).device,
    {
        self.hooks[address as usize] = Some(hook);
    }

    /// Installs `hook` at every address from `start_address` to `end_address`, both included.
    pub fn add_hook_range(&mut self, start_address: u16, end_address: u16, hook: Hook)
        ensures
            forall|a: int|
                0 <= a < 0x10000 ==> #[trigger] final(self).hooks@[a] == if start_address <= a
                    <= end_address {
                    Some(hook)
                } else {
                    old(self).hooks@[a]
                },
            final(self).ram == old(self).ram,
            final(self).device == old(self).device,
    {
        let mut address: u32 = start_address as u32;
        while address <= end_address as u32
            invariant
                start_address <= address <= end_address as u32 + 1 || start_address > end_address,
                address >= start_address,
                start_address > end_address ==> address == start_address,
                self.ram == old(self).ram,
                self.device == old(self).device,
                forall|a: int|
                    0 <= a < 0x10000 ==> #[trigger] self.hooks@[a] == if start_address <= a
                        < address {
                        Some(hook)
                    } else {
                        old(self).hooks@[a]
                    },
            decreases end_address as u32 + 1 - address,
        {
            self.hooks[address as usize] = Some(hook);
            address = address + 1;
        }
    }

    /// The byte at `address`: the device's answer where a read hook is installed,
    /// else backing memory.
    pub fn read_byte(&self, address: u16) -> (r: u8)
        ensures
            r == self.peek(address),
    {
        let hooked = match self.hooks[address as usize] {
            Some(h) => h.read,
            None => false,
        };
        if hooked {
            self.device.read(address)
        } else {
            self.ram[address as usize]
        }
    }

    /// Stores `value` at `address`, then hands it to the device where a write hook
    /// is installed.
    pub fn write_byte(&mut self, address: u16, value: u8)
        ensures
            old(self).writes_to(seq![(address, value)], *final(self)),
            old(self).writes_hooked(address) ==> final(self).device == old(self).device.after_write(
                address,
                value,
            ),
            !old(self).writes_hooked(address) ==> final(self).device == old(self).device,
    {
        let ghost pre = *self;
        self.ram[address as usize] = value;
        let hooked = match self.hooks[address as usize] {
            Some(h) => h.write,
            None => false,
        };
        if hooked {
            self.device.write(address, value);
        }
        proof {
            let w = seq![(address, value)];
            assert(w.drop_last() =~= Seq::<(u16, u8)>::empty());
            assert(apply_writes(pre.ram@, w.drop_last()) == pre.ram@);
            assert(device_after(pre.device, pre.hooks@, w.drop_last()) == pre.device);
            assert(w[0].0 == address);
            assert(hooked == pre.writes_hooked(address));
        }
    }
}

/// Composes two runs of writes into one.
pub proof fn lemma_writes_compose<D: Device>(
    b0: Bus<D>,
    w1: Seq<(u16, u8)>,
    b1: Bus<D>,
    w2: Seq<(u16, u8)>,
    b2: Bus<D>,
)
    requires
        b0.writes_to(w1, b1),
        b1.writes_to(w2, b2),
    ensures
        b0.writes_to(w1 + w2, b2),
{
    lemma_apply_writes_concat(b0.ram@, w1, w2);
    lemma_device_after_concat(b0.device, b0.hooks@, w1, w2);
}

/// A read after a write at an address without a read hook gives back the value written.
pub proof fn lemma_write_then_read<D: Device>(b0: Bus<D>, a: u16, v: u8, b1: Bus<D>)
    requires
        b0.writes_to(seq![(a, v)], b1),
        !b0.reads_hooked(a),
    ensures
        b1.peek(a) == v,
{
    reveal_with_fuel(apply_writes, 2);
    assert(seq![(a, v)].drop_last() =~= Seq::<(u16, u8)>::empty());
}

/// Once a read hook is installed at `a`, a read there gives the device's answer, and
/// two buses that differ only in memory read the same there.
pub proof fn lemma_read_hook_ignores_memory<D: Device>(
    b0: Bus<D>,
    a: u16,
    h: Hook,
    b1: Bus<D>,
    other: Bus<D>,
)
    requires
        h.read,
        b1.hooks@ == b0.hooks@.update(a as int, Some(h)),
        other.hooks == b1.hooks,
        other.device == b1.device,
    ensures
        b1.peek(a) == b1.device.read_spec(a),
        other.peek(a) == b1.peek(a),
{
}

/// A write stores its value in memory, hooked or not.
pub proof fn lemma_write_reaches_memory<D: Device>(b0: Bus<D>, a: u16, v: u8, b1: Bus<D>)
    requires
        b0.writes_to(seq![(a, v)], b1),
    ensures
        b1.ram@[a as int] == v,
{
    reveal_with_fuel(apply_writes, 2);
    assert(seq![(a, v)].drop_last() =~= Seq::<(u16, u8)>::empty());
}

/// A write at an address with a write hook reaches the device, which takes it after
/// memory does; a write elsewhere leaves the device as it was.
pub proof fn lemma_hooked_write_reaches_device<D: Device>(b0: Bus<D>, a: u16, v: u8, b1: Bus<D>)
    requires
        b0.writes_to(seq![(a, v)], b1),
    ensures
        b0.writes_hooked(a) ==> b1.device == b0.device.after_write(a, v),
        !b0.writes_hooked(a) ==> b1.device == b0.device,
        b1.ram@[a as int] == v,
{
    reveal_with_fuel(apply_writes, 2);
    reveal_with_fuel(device_after, 2);
    assert(seq![(a, v)].drop_last() =~= Seq::<(u16, u8)>::empty());
}

} // verus!
