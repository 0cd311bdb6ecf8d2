//! The driver handle and the operations every variant has.

use vstd::prelude::*;
use core::marker::PhantomData;
use crate::address::{get_address, resolve, valid_address, ResolvedAddress};
use crate::eeprom::{
    all_succeed, completed_write_follows_plan, failure_abandons_write, lemma_first_outcomes, Action,
    EepromWrite, Stage,
};
use crate::ic::{default_address, Variant};
use crate::transfer::{
    byte_reply, word_from_bytes, word_reply, write_reply, ByteRead, Command, WordRead,
};
use crate::types::{Error, SlaveAddr};

verus! {

/// What a driver handle holds, as plain values.
pub ghost struct DeviceView<I2C, D> {
    /// The bus the device sits on.
    pub bus: I2C,
    /// The provider of delays.
    pub delay: D,
    /// The address the device is spoken to at.
    pub address: u8,
    /// Milliseconds the chip is given to settle after an EEPROM write.
    pub eeprom_write_delay_ms: u8,
}

/// Driver handle for a chip of variant `IC` on a bus of type `I2C`.
///
/// The handle owns the bus and the delay provider. It never uses them
/// itself: it names the transfers to make and says what their outcomes
/// mean, and lends the bus out for the caller to make them.
#[derive(Debug)]
pub struct Mlx9061x<I2C, D, IC> {
    i2c: I2C,
    delay_ms: D,
    eeprom_write_delay_ms: u8,
    address: ResolvedAddress,
    _ic: PhantomData<IC>,
}

impl<I2C, D, IC> View for Mlx9061x<I2C, D, IC> {
    type V = DeviceView<I2C, D>;

    closed spec fn view(&self) -> DeviceView<I2C, D> {
        DeviceView {
            bus: self.i2c,
            delay: self.delay_ms,
            address: self.address@,
            eeprom_write_delay_ms: self.eeprom_write_delay_ms,
        }
    }
}

/// What a change of address in progress holds, as plain values.
pub ghost struct ChangeView {
    /// The address the device is being given.
    pub target: u8,
    /// The EEPROM write that stores it.
    pub write: EepromWrite,
}

impl ChangeView {
    /// The change of the address of the device at `address` to `target`, of
    /// which nothing has been done yet: the EEPROM write of `target` into
    /// `register` is about to begin.
    pub open spec fn begin(address: u8, register: u8, target: u8, delay_ms: u8) -> ChangeView {
        ChangeView { target, write: EepromWrite::start(address, register, target as u16, delay_ms) }
    }

    /// The change after its due action has succeeded.
    pub open spec fn advanced(self) -> ChangeView {
        ChangeView { write: self.write.advanced(), ..self }
    }
}

/// A change of the device's address that has been begun.
///
/// It is made by [`Mlx9061x::set_address`] and carried forward by
/// [`Mlx9061x::resume_set_address`], and by nothing else.
#[derive(Debug)]
pub struct AddressChange {
    target: ResolvedAddress,
    write: EepromWrite,
}

impl View for AddressChange {
    type V = ChangeView;

    closed spec fn view(&self) -> ChangeView {
        ChangeView { target: self.target@, write: self.write }
    }
}

impl AddressChange {
    /// The action to perform next, or `None` once the change is complete.
    pub fn pending(&self) -> (action: Option<Action>)
        ensures
            action == self@.write.due(),
    {
        self.write.pending()
    }

    /// The address the device is being given.
    pub fn target(&self) -> (address: u8)
        ensures
            address == self@.target,
            valid_address(address),
    {
        self.target.get()
    }
}

/// The address a handle holds once a change of address has taken in one
/// more outcome: the target if that outcome was a success and completed the
/// EEPROM write, the address held before in every other case.
pub open spec fn address_after_step(current: u8, change: ChangeView, succeeded: bool) -> u8 {
    if succeeded && change.write.advanced().complete() {
        change.target
    } else {
        current
    }
}

/// The address a handle holds once a change of address has been carried
/// forward through `outcomes`, one outcome per action, stopping at the
/// first failure or when nothing is due any more.
pub open spec fn address_after(current: u8, change: ChangeView, outcomes: Seq<bool>) -> u8
    decreases outcomes.len(),
{
    if outcomes.len() == 0 || change.write.complete() || !outcomes[0] {
        current
    } else {
        address_after(
            address_after_step(current, change, true),
            change.advanced(),
            outcomes.drop_first(),
        )
    }
}

impl<I2C, D, IC> Mlx9061x<I2C, D, IC> {
    /// Puts a handle together from parts that need no further checking.
    pub(crate) fn assemble(
        i2c: I2C,
        delay_ms: D,
        address: ResolvedAddress,
        eeprom_write_delay_ms: u8,
    ) -> (device: Self)
        ensures
            device@ == (DeviceView {
                bus: i2c,
                delay: delay_ms,
                address: address@,
                eeprom_write_delay_ms,
            }),
    {
        Mlx9061x { i2c, delay_ms, eeprom_write_delay_ms, address, _ic: PhantomData }
    }

    /// Destroys the handle and gives the bus back.
    pub fn destroy(self) -> (bus: I2C)
        ensures
            bus == self@.bus,
    {
        self.i2c
    }

    /// Lends out the bus, for the caller to make a transfer on.
    ///
    /// Whatever the caller does to the bus, the rest of the handle stays as
    /// it was.
    pub fn bus(&mut self) -> (bus: &mut I2C)
        ensures
            *bus == old(self)@.bus,
            final(self)@ == (DeviceView { bus: *final(bus), ..old(self)@ }),
    {
        &mut self.i2c
    }

    /// Lends out the delay provider, for the caller to wait with.
    ///
    /// Whatever the caller does to it, the rest of the handle stays as it
    /// was.
    pub fn delay(&mut self) -> (delay: &mut D)
        ensures
            *delay == old(self)@.delay,
            final(self)@ == (DeviceView { delay: *final(delay), ..old(self)@ }),
    {
        &mut self.delay_ms
    }

    /// The address the device is spoken to at.
    pub fn address(&self) -> (address: u8)
        ensures
            address == self@.address,
            valid_address(address),
    {
        self.address.get()
    }

    /// Milliseconds the chip is given to settle after an EEPROM write.
    pub fn eeprom_write_delay_ms(&self) -> (ms: u8)
        ensures
            ms == self@.eeprom_write_delay_ms,
    {
        self.eeprom_write_delay_ms
    }

    /// The transfer that reads one byte from `register`.
    pub fn read_byte_request(&self, register: u8) -> (request: ByteRead)
        ensures
            request == (ByteRead { address: self@.address, register }),
            valid_address(request.address),
    {
        ByteRead { address: self.address.get(), register }
    }

    /// What the read of a byte comes to: the byte as it was read, or the
    /// bus's error.
    pub fn read_byte<E>(&self, reply: Result<[u8; 1], E>) -> (byte: Result<u8, Error<E>>)
        ensures
            reply matches Ok(data) ==> byte == Ok::<u8, Error<E>>(data[0]),
            reply matches Err(e) ==> byte == Err::<u8, Error<E>>(Error::BusError(e)),
    {
        byte_reply(reply)
    }

    /// The transfer that reads the 16-bit value of `register`.
    pub fn read_word_request(&self, register: u8) -> (request: WordRead)
        ensures
            request == (WordRead { address: self@.address, register }),
            valid_address(request.address),
    {
        WordRead { address: self.address.get(), register }
    }

    /// What the read of a 16-bit value comes to: the value, whose low byte
    /// was read first, or the bus's error.
    pub fn read_word<E>(&self, reply: Result<[u8; 2], E>) -> (word: Result<u16, Error<E>>)
        ensures
            reply matches Ok(data) ==> word == Ok::<u16, Error<E>>(
                word_from_bytes(data[0], data[1]),
            ),
            reply matches Err(e) ==> word == Err::<u16, Error<E>>(Error::BusError(e)),
    {
        word_reply(reply)
    }

    /// The transfer that sends the single byte `command`.
    pub fn write_byte_request(&self, command: u8) -> (request: Command)
        ensures
            request == (Command { address: self@.address, command }),
            valid_address(request.address),
    {
        Command { address: self.address.get(), command }
    }

    /// What the write of a command byte comes to: nothing, or the bus's
    /// error.
    pub fn write_byte<E>(&self, outcome: Result<(), E>) -> (done: Result<(), Error<E>>)
        ensures
            outcome is Ok ==> done is Ok,
            outcome matches Err(e) ==> done == Err::<(), Error<E>>(Error::BusError(e)),
    {
        write_reply(outcome)
    }

    /// Begins the write of `value` into the EEPROM register `register`,
    /// with the settling time the handle was made with.
    ///
    /// The write is carried forward with [`EepromWrite::pending`] and
    /// [`EepromWrite::step`].
    pub fn write_eeprom_word(&self, register: u8, value: u16) -> (write: EepromWrite)
        ensures
            write == EepromWrite::start(
                self@.address,
                register,
                value,
                self@.eeprom_write_delay_ms,
            ),
            valid_address(write.address),
    {
        EepromWrite::new(self.address.get(), register, value, self.eeprom_write_delay_ms)
    }
}

impl<I2C, D, IC: Variant> Mlx9061x<I2C, D, IC> {
    /// Begins a change of the device's address.
    ///
    /// The selector is resolved against the variant's factory default. An
    /// address that does not resolve is rejected here, before anything is
    /// asked of the bus. Otherwise the change consists of one EEPROM write
    /// of the new address into the variant's address register, addressed to
    /// the device where it is now. The handle itself is left as it is: it
    /// takes the new address in [`Mlx9061x::resume_set_address`], once the
    /// write is complete.
    pub fn set_address<E>(&self, address: SlaveAddr) -> (change: Result<AddressChange, Error<E>>)
        ensures
            resolve(address, IC::register_map().default_address) matches Some(target) ==> change
                is Ok && change->Ok_0@ == ChangeView::begin(
                self@.address,
                IC::register_map().address,
                target,
                self@.eeprom_write_delay_ms,
            ),
            resolve(address, IC::register_map().default_address) is None ==> change == Err::<
                AddressChange,
                Error<E>,
            >(Error::InvalidInputData),
    {
        match get_address::<E>(address, default_address::<IC>()) {
            Ok(target) => {
                let register: u8 = IC::registers().address;
                let write = self.write_eeprom_word(register, target.get() as u16);
                Ok(AddressChange { target, write })
            },
            Err(e) => Err(e),
        }
    }

    /// Takes in the outcome of the action that was pending in `change`.
    ///
    /// A failure abandons the change: the bus's error is handed back and the
    /// handle keeps its address. A success moves the change on; when that
    /// completes the EEPROM write, and only then, the handle takes the new
    /// address. The bus, the delay provider and the settling time are never
    /// touched.
    pub fn resume_set_address<E>(&mut self, change: AddressChange, outcome: Result<(), E>) -> (next:
        Result<AddressChange, Error<E>>)
        ensures
            final(self)@ == (DeviceView {
                address: address_after_step(old(self)@.address, change@, outcome is Ok),
                ..old(self)@
            }),
            outcome is Ok ==> next is Ok && next->Ok_0@ == change@.advanced(),
            outcome matches Err(e) ==> next == Err::<AddressChange, Error<E>>(Error::BusError(e)),
    {
        match change.write.step(outcome) {
            Ok(write) => {
                if write.is_complete() {
                    self.address = change.target;
                }
                Ok(AddressChange { target: change.target, write })
            },
            Err(e) => Err(e),
        }
    }

    /// The transfer that puts the chip to sleep: one write of the variant's
    /// sleep command, and nothing else.
    pub fn sleep_request(&self) -> (request: Command)
        ensures
            request == (Command {
                address: self@.address,
                command: IC::register_map().sleep_command,
            }),
            valid_address(request.address),
    {
        self.write_byte_request(IC::registers().sleep_command)
    }

    /// What putting the chip to sleep comes to: nothing, or the bus's error.
    pub fn sleep<E>(&self, outcome: Result<(), E>) -> (done: Result<(), Error<E>>)
        ensures
            outcome is Ok ==> done is Ok,
            outcome matches Err(e) ==> done == Err::<(), Error<E>>(Error::BusError(e)),
    {
        self.write_byte(outcome)
    }
}

/// A change of address that is carried forward from its beginning leaves
/// the handle with the new address if the EEPROM write came to completion,
/// which it does exactly when its first four actions all succeed, and with
/// the address it had in every other case: whichever action fails, the
/// erasing write, the write of the new address or a delay, and however few
/// outcomes there are.
pub proof fn address_changes_only_on_success(current: u8, change: ChangeView, outcomes: Seq<bool>)
    requires
        change.write.stage == Stage::Erase,
    ensures
        (change.write.after(outcomes) matches Some(end) && end.complete()) <==> all_succeed(
            outcomes,
            4,
        ),
        all_succeed(outcomes, 4) ==> address_after(current, change, outcomes) == change.target,
        !all_succeed(outcomes, 4) ==> address_after(current, change, outcomes) == current,
{
    completed_write_follows_plan(change.write, outcomes);
    reveal_with_fuel(address_after, 5);
    lemma_first_outcomes(outcomes);
}

/// A failure of the write that carries the new address, the last write of
/// the change, leaves the handle with the address it had: the two actions
/// before it succeeded, the erased register notwithstanding.
pub proof fn failed_final_write_keeps_address(current: u8, change: ChangeView, outcomes: Seq<bool>)
    requires
        change.write.stage == Stage::Erase,
        outcomes.len() >= 3,
        outcomes[0],
        outcomes[1],
        !outcomes[2],
    ensures
        change.write.issued(outcomes) == change.write.plan().take(3),
        change.write.after(outcomes) is None,
        address_after(current, change, outcomes) == current,
{
    failure_abandons_write(change.write, outcomes, 2);
    address_changes_only_on_success(current, change, outcomes);
}

} // verus!
