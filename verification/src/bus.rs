//! The root complex of a PCI bus and the sweep over the slots of one bus.
//!
//! The mapped configuration window is held as a function value that loads
//! the 32-bit word at a word index of the window. Whoever maps the window
//! builds that function once and hands it to [`PciRoot::new`]; nothing else
//! in this module touches memory. A load may give a different word each time
//! it is made, so the contracts here say of each word only that the window
//! may yield it.

use vstd::prelude::*;
use crate::cam::{AddressError, Cam, DeviceFunction, MAX_DEVICES, MAX_FUNCTIONS};
use crate::cam::lemma_register_is_addressable;
use crate::header::{DeviceFunctionInfo, INVALID_READ, is_present};

verus! {

/// The root complex of a PCI bus.
pub struct PciRoot<R: Fn(u32) -> u32> {
    reader: R,
    cam: Cam,
}

impl<R: Fn(u32) -> u32> PciRoot<R> {
    #[verifier::type_invariant]
    spec fn reader_covers_window(self) -> bool {
        forall|index: u32| index < self.cam.window_words() ==> call_requires(self.reader, (index,))
    }

    /// The access mechanism of the window.
    pub closed spec fn cam(&self) -> Cam {
        self.cam
    }

    /// The function that loads a word of the window.
    pub closed spec fn reader(&self) -> R {
        self.reader
    }

    /// Whether a load of the register may yield `word`.
    pub open spec fn yields(
        &self,
        device_function: DeviceFunction,
        register_offset: u32,
        word: u32,
    ) -> bool {
        call_ensures(
            self.reader(),
            (self.cam().address(device_function, register_offset) / 4,),
            word,
        )
    }

    /// Whether the header word of the slot may read as that of an absent function.
    pub open spec fn may_be_absent(&self, device_function: DeviceFunction) -> bool {
        self.yields(device_function, 0, INVALID_READ)
    }

    /// Whether `info` may be read for the slot: it is decoded from words that
    /// the registers 0, 8 and 12 of the slot may yield, and the word at
    /// register 0 shows a function.
    pub open spec fn may_describe(
        &self,
        device_function: DeviceFunction,
        info: DeviceFunctionInfo,
    ) -> bool {
        exists|device_vendor: u32, class_revision: u32, bist_type_latency_cache: u32|
            {
                &&& is_present(device_vendor)
                &&& self.yields(device_function, 0, device_vendor)
                &&& self.yields(device_function, 8, class_revision)
                &&& self.yields(device_function, 12, bist_type_latency_cache)
                &&& info == #[trigger] DeviceFunctionInfo::of(
                    device_vendor,
                    class_revision,
                    bist_type_latency_cache,
                )
            }
    }

    /// Whether the window is fixed: a load of a word yields the same word
    /// whenever it is made.
    pub open spec fn is_fixed(&self) -> bool {
        forall|index: u32, first: u32, second: u32|
            #[trigger] call_ensures(self.reader(), (index,), first) && #[trigger] call_ensures(
                self.reader(),
                (index,),
                second,
            ) ==> first == second
    }

    /// Wraps the PCI root complex whose configuration window `reader` loads from.
    ///
    /// `reader` is given the index of a 32-bit word, counted from the base of
    /// the window, and returns the word loaded there. It must accept every
    /// index inside the window of `cam`: the window has to be mapped in
    /// full, 16 MiB for [`Cam::MmioCam`] and 256 MiB for [`Cam::Ecam`].
    pub fn new(reader: R, cam: Cam) -> (root: Self)
        requires
            forall|index: u32| index < cam.window_words() ==> call_requires(reader, (index,)),
        ensures
            root.cam() == cam,
            root.reader() == reader,
    {
        PciRoot { reader, cam }
    }

    /// The byte offset of a register in the configuration window.
    ///
    /// The address must lie inside the window and on a word boundary; see
    /// [`PciRoot::checked_cam_offset`] for a caller that cannot tell.
    pub fn cam_offset(
        &self,
        device_function: DeviceFunction,
        register_offset: u32,
    ) -> (address: u32)
        requires
            self.cam().addressable(device_function, register_offset),
        ensures
            address == self.cam().address(device_function, register_offset),
            address < self.cam().window_size(),
            address % 4 == 0,
    {
        let bdf = (device_function.bus as u32) << 8 | (device_function.device as u32) << 3
            | device_function.function as u32;
        match self.cam {
            Cam::MmioCam => bdf << 8 | register_offset,
            Cam::Ecam => bdf << 12 | register_offset,
        }
    }

    /// The byte offset of a register in the configuration window, or the
    /// reason why it has none: an address at or beyond the end of the window
    /// is out of range, and one inside the window that is no multiple of 4 is
    /// misaligned.
    pub fn checked_cam_offset(
        &self,
        device_function: DeviceFunction,
        register_offset: u32,
    ) -> (result: Result<u32, AddressError>)
        ensures
            result is Ok <==> self.cam().addressable(device_function, register_offset),
            result is Ok ==> result->Ok_0 == self.cam().address(device_function, register_offset),
            result == Err::<u32, AddressError>(AddressError::OutOfRange)
                <==> self.cam().address(device_function, register_offset)
                >= self.cam().window_size(),
            result == Err::<u32, AddressError>(AddressError::Misaligned)
                <==> self.cam().address(device_function, register_offset)
                < self.cam().window_size()
                && self.cam().address(device_function, register_offset) % 4 != 0,
    {
        let bdf = (device_function.bus as u32) << 8 | (device_function.device as u32) << 3
            | device_function.function as u32;
        let address = match self.cam {
            Cam::MmioCam => bdf << 8 | register_offset,
            Cam::Ecam => bdf << 12 | register_offset,
        };
        if address >= self.cam.window_size() {
            Err(AddressError::OutOfRange)
        } else if address & 0x3 != 0 {
            assert(address & 0x3 == address % 4) by (bit_vector);
            Err(AddressError::Misaligned)
        } else {
            assert(address & 0x3 == address % 4) by (bit_vector);
            Ok(address)
        }
    }

    /// Reads 4 bytes from configuration space using the appropriate CAM.
    pub fn config_read_word(
        &self,
        device_function: DeviceFunction,
        register_offset: u32,
    ) -> (word: u32)
        requires
            self.cam().addressable(device_function, register_offset),
        ensures
            self.yields(device_function, register_offset, word),
    {
        let address = self.cam_offset(device_function, register_offset);
        proof {
            use_type_invariant(self);
            assert(address >> 2 == address / 4) by (bit_vector);
        }
        // Right shift to convert from byte offset to word offset.
        (self.reader)(address >> 2)
    }

    /// Enumerates PCI devices on the given bus.
    pub fn enumerate_bus(&self, bus: u8) -> (iterator: BusDeviceIterator<'_, R>)
        ensures
            iterator.root() == self,
            iterator.cursor() == (DeviceFunction { bus, device: 0, function: 0 }),
    {
        BusDeviceIterator { root: self, next: DeviceFunction { bus, device: 0, function: 0 } }
    }
}

/// An iterator which enumerates PCI devices and functions on a given bus.
pub struct BusDeviceIterator<'a, R: Fn(u32) -> u32> {
    root: &'a PciRoot<R>,
    next: DeviceFunction,
}

impl<'a, R: Fn(u32) -> u32> BusDeviceIterator<'a, R> {
    #[verifier::type_invariant]
    spec fn cursor_in_sweep(self) -> bool {
        &&& self.next.function < MAX_FUNCTIONS
        &&& self.next.device <= MAX_DEVICES
        &&& self.next.device == MAX_DEVICES ==> self.next.function == 0
    }

    /// The root complex whose window the sweep reads.
    pub closed spec fn root(&self) -> &'a PciRoot<R> {
        self.root
    }

    /// The slot that the sweep probes next. Its device number is 32 when the
    /// sweep is over.
    pub closed spec fn cursor(&self) -> DeviceFunction {
        self.next
    }

    /// The bus that is swept.
    pub open spec fn bus(&self) -> u8 {
        self.cursor().bus
    }

    /// How many slots the sweep has left behind: between 0 and 256.
    pub open spec fn position(&self) -> int {
        self.cursor().position()
    }

    /// Probes the slots from the cursor on, in the order of the sweep, and
    /// returns the first at which a function shows, with its decoded header;
    /// `None` when the last slot of the bus has been passed.
    ///
    /// On return the cursor stands behind the slot that was returned, or at
    /// the end of the bus. Each slot before it, from the old cursor on, was
    /// probed and read as absent: none is left out and none is returned.
    pub fn next(&mut self) -> (item: Option<(DeviceFunction, DeviceFunctionInfo)>)
        ensures
            final(self).root() == old(self).root(),
            final(self).bus() == old(self).bus(),
            0 <= old(self).position() <= final(self).position() <= 256,
            final(self).cursor() == DeviceFunction::at(old(self).bus(), final(self).position()),
            match item {
                Some((device_function, info)) => {
                    &&& old(self).position() < final(self).position()
                    &&& device_function == DeviceFunction::at(
                        old(self).bus(),
                        final(self).position() - 1,
                    )
                    &&& device_function.valid()
                    &&& forall|position: int|
                        old(self).position() <= position < final(self).position() - 1
                            ==> old(self).root().may_be_absent(
                            #[trigger] DeviceFunction::at(old(self).bus(), position),
                        )
                    &&& old(self).root().may_describe(device_function, info)
                },
                None => {
                    &&& final(self).position() == 256
                    &&& forall|position: int|
                        old(self).position() <= position < 256
                            ==> old(self).root().may_be_absent(
                            #[trigger] DeviceFunction::at(old(self).bus(), position),
                        )
                },
            },
    {
        proof {
            use_type_invariant(&*self);
        }
        let ghost start = self.next.position();
        let bus = self.next.bus;
        while self.next.device < MAX_DEVICES
            invariant
                self.root == old(self).root,
                self.next.bus == bus,
                bus == old(self).next.bus,
                start == old(self).next.position(),
                self.next.function < MAX_FUNCTIONS,
                self.next.device <= MAX_DEVICES,
                self.next.device == MAX_DEVICES ==> self.next.function == 0,
                0 <= start <= self.next.position() <= 256,
                forall|position: int|
                    start <= position < self.next.position() ==> self.root.may_be_absent(
                        #[trigger] DeviceFunction::at(bus, position),
                    ),
            decreases 256 - self.next.position(),
        {
            // Read the header for the current device and function.
            let current = self.next;
            proof {
                lemma_register_is_addressable(self.root.cam(), current, 0);
                lemma_register_is_addressable(self.root.cam(), current, 8);
                lemma_register_is_addressable(self.root.cam(), current, 12);
                assert(current == DeviceFunction::at(bus, current.position()));
            }
            let device_vendor = self.root.config_read_word(current, 0);

            // Advance to the next device or function.
            let following = if current.function + 1 >= MAX_FUNCTIONS {
                DeviceFunction { bus, device: current.device + 1, function: 0 }
            } else {
                DeviceFunction { bus, device: current.device, function: current.function + 1 }
            };
            self.next = following;
            assert(following.position() == current.position() + 1);
            assert(following == DeviceFunction::at(bus, following.position()));

            if device_vendor != INVALID_READ {
                let class_revision = self.root.config_read_word(current, 8);
                let bist_type_latency_cache = self.root.config_read_word(current, 12);
                let info = DeviceFunctionInfo::decode(
                    device_vendor,
                    class_revision,
                    bist_type_latency_cache,
                );
                assert(self.root.may_describe(current, info));
                return Some((current, info));
            }
        }
        assert(self.next == DeviceFunction::at(bus, 256));
        None
    }
}

/// Over a fixed window no result is given for an absent slot: where the
/// header word reads as all ones, no header describes the slot.
pub proof fn lemma_absent_slot_is_not_described<R: Fn(u32) -> u32>(
    root: PciRoot<R>,
    device_function: DeviceFunction,
    info: DeviceFunctionInfo,
)
    requires
        root.is_fixed(),
        root.may_be_absent(device_function),
    ensures
        !root.may_describe(device_function, info),
{
}

/// Over a fixed window a slot is described in one way only: by the header
/// decoded from the words that its registers 0, 8 and 12 hold.
pub proof fn lemma_description_is_unique<R: Fn(u32) -> u32>(
    root: PciRoot<R>,
    device_function: DeviceFunction,
    first: DeviceFunctionInfo,
    second: DeviceFunctionInfo,
)
    requires
        root.is_fixed(),
        root.may_describe(device_function, first),
        root.may_describe(device_function, second),
    ensures
        first == second,
{
}

} // verus!
