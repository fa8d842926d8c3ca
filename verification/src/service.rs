//! The server process.

use crate::number;
use crate::number::read_u16;
use crate::path::{starts_with, text_from};
use crate::text;
use crate::text::{concat, trim};
use vstd::prelude::*;

verus! {

/// The vendor of the devices.
pub const AMAZON_VENDOR_ID: u16 = 0x1949;

/// The product unless another is asked for.
pub const KT6_COMPOSITE_PRODUCT_ID: u16 = 0x9981;

/// The kind of the interface that is looked for.
pub const KINDLEBRIDGE_USB_SUBCLASS: u8 = 0x4b;

/// The protocol of the interface that is looked for.
pub const KINDLEBRIDGE_USB_PROTOCOL: u8 = 0x01;

/// How long a server stays without clients unless another time is asked for, in
/// seconds.
pub const DEFAULT_IDLE_TIMEOUT: u64 = 600;

/// Where the devices of a server are.
#[derive(Clone, Copy, Debug, PartialEq, Eq, Structural)]
pub enum DeviceSource {
    /// At the USB ports.
    Usb,
    /// At network addresses.
    Tcp,
    /// In an inventory, which is empty unless a file is given.
    Inventory,
}

/// Why the options of a server do not fit together, if they do not.
pub open spec fn options_refusal(
    has_devices_file: bool,
    tcp_devices: nat,
    usb: bool,
    has_usb_serial: bool,
) -> Option<Seq<char>> {
    if (has_devices_file && (tcp_devices > 0 || usb)) || (tcp_devices > 0 && usb) {
        Some("--devices-file, --tcp-device and --usb cannot be combined"@)
    } else if has_usb_serial && !usb {
        Some("--usb-serial requires --usb"@)
    } else {
        None
    }
}

/// Where the devices of a server are, by options that fit together.
pub open spec fn source_of(tcp_devices: nat, usb: bool) -> DeviceSource {
    if usb {
        DeviceSource::Usb
    } else if tcp_devices > 0 {
        DeviceSource::Tcp
    } else {
        DeviceSource::Inventory
    }
}

/// Decides where the devices of a server are.
pub fn device_source(
    has_devices_file: bool,
    tcp_devices: usize,
    usb: bool,
    has_usb_serial: bool,
) -> (result: Result<DeviceSource, String>)
    ensures
        match options_refusal(has_devices_file, tcp_devices as nat, usb, has_usb_serial) {
            Some(refusal) => result matches Err(message) && message@ == refusal,
            None => result == Ok::<_, String>(source_of(tcp_devices as nat, usb)),
        },
{
    let tcp = tcp_devices > 0;
    if (has_devices_file && (tcp || usb)) || (tcp && usb) {
        return Err("--devices-file, --tcp-device and --usb cannot be combined".to_owned());
    }
    if has_usb_serial && !usb {
        return Err("--usb-serial requires --usb".to_owned());
    }
    if usb {
        Ok(DeviceSource::Usb)
    } else if tcp {
        Ok(DeviceSource::Tcp)
    } else {
        Ok(DeviceSource::Inventory)
    }
}

/// The digits of a product number, and their radix.
pub open spec fn id_digits(value: Seq<char>) -> (Seq<char>, u32) {
    let value = text::trimmed(value);
    if "0x"@.is_prefix_of(value) || "0X"@.is_prefix_of(value) {
        (value.skip(2), 16)
    } else {
        (value, 10)
    }
}

/// Reads a product number, decimal or hexadecimal.
pub fn parse_usb_id(value: &str) -> (id: Result<u16, String>)
    ensures
        ({
            let (digits, radix) = id_digits(value@);
            match number::unsigned(digits, radix as nat, u16::MAX as nat) {
                Some(number) => id == Ok::<u16, String>(number as u16),
                None => id matches Err(message) && message@ == number::number_refusal(
                    digits,
                    radix,
                ),
            }
        }),
{
    let value = trim(value);
    proof {
        reveal_strlit("0x");
        reveal_strlit("0X");
    }
    if starts_with(value.as_str(), "0x") || starts_with(value.as_str(), "0X") {
        read_u16(text_from(value.as_str(), 2).as_str(), 16)
    } else {
        read_u16(value.as_str(), 10)
    }
}

/// Checks where the process that is watched listens: on the same host.
pub fn check_parent_watchdog(is_loopback: bool) -> (result: Result<(), String>)
    ensures
        if is_loopback {
            result is Ok
        } else {
            result matches Err(message) && message@
                == "--parent-watchdog must use a loopback address"@
        },
{
    if is_loopback {
        Ok(())
    } else {
        Err("--parent-watchdog must use a loopback address".to_owned())
    }
}

/// What the wait for a client comes to.
#[derive(Debug)]
pub enum Accept {
    /// A client is there.
    Client,
    /// Nobody is there.
    WouldBlock,
    Failed(String),
}

/// What the server does next.
#[derive(Debug)]
pub enum ServiceStep {
    /// It ends.
    Exit,
    /// It serves the client, and waits for the next.
    Serve,
    /// It waits for so many milliseconds, and looks for a client again.
    Sleep(u64),
    /// It fails.
    Fail(String),
}

/// A server that waits for clients, as long as none has asked it to stop. Times are nanoseconds on a clock that does not
/// go back.
#[derive(Debug)]
pub struct LocalService {
    idle_timeout: u64,
    idle_since: u64,
}

/// The server after a look for clients: as long as it has any, it is not idle.
pub open spec fn idle_after(idle_since: u64, accept: Accept, active_clients: nat, now: u64) -> u64 {
    if accept is WouldBlock && active_clients > 0 {
        now
    } else {
        idle_since
    }
}

/// Whether the server does this after a look for clients.
pub open spec fn is_service_step(
    idle_timeout: u64,
    idle_since: u64,
    accept: Accept,
    active_clients: nat,
    now: u64,
    step: ServiceStep,
) -> bool {
    match accept {
        Accept::Client => step is Serve,
        Accept::Failed(message) => step matches ServiceStep::Fail(text) && text@
            == "local server accept failed: "@ + message@,
        Accept::WouldBlock => if active_clients == 0 && crate::lifecycle::passed(idle_since, now)
            >= idle_timeout {
            step is Exit
        } else {
            step == ServiceStep::Sleep(25)
        },
    }
}

/// Looks for clients that found nobody, each with the number of clients that were being
/// served and the time.
pub open spec fn idle_after_looks(start: u64, looks: Seq<(nat, u64)>) -> u64
    decreases looks.len(),
{
    if looks.len() == 0 {
        start
    } else {
        idle_after(
            idle_after_looks(start, looks.drop_last()),
            Accept::WouldBlock,
            looks.last().0,
            looks.last().1,
        )
    }
}

/// The server ends only when it has had no clients for as long as it is to stay: it does not
/// end while it has one, nor before its time has passed since the last look that found one,
/// or since its start; and when that time has passed without any, the next look ends it.
pub proof fn idle_servers_end(
    idle_timeout: u64,
    start: u64,
    looks: Seq<(nat, u64)>,
    active_clients: nat,
    now: u64,
    step: ServiceStep,
)
    requires
        is_service_step(
            idle_timeout,
            idle_after_looks(start, looks),
            Accept::WouldBlock,
            active_clients,
            now,
            step,
        ),
        forall|i: int| 0 <= i < looks.len() ==> (#[trigger] looks[i]).1 <= now,
        start <= now,
    ensures
        active_clients > 0 ==> !(step is Exit),
        step is Exit ==> {
            &&& forall|i: int|
                0 <= i < looks.len() && (#[trigger] looks[i]).0 > 0 && (forall|k: int|
                    i < k < looks.len() ==> (#[trigger] looks[k]).0 == 0) ==> now - looks[i].1
                    >= idle_timeout
            &&& (forall|k: int| 0 <= k < looks.len() ==> (#[trigger] looks[k]).0 == 0) ==> now - start
                >= idle_timeout
        },
        active_clients == 0 && now - start >= idle_timeout && (forall|i: int|
            0 <= i < looks.len() && (#[trigger] looks[i]).0 > 0 ==> now - looks[i].1
                >= idle_timeout) ==> step is Exit,
        !(step is Exit) ==> step is Sleep,
{
    idle_since_the_last_client(start, looks);
}

proof fn idle_since_the_last_client(start: u64, looks: Seq<(nat, u64)>)
    ensures
        (forall|k: int| 0 <= k < looks.len() ==> (#[trigger] looks[k]).0 == 0) ==> idle_after_looks(
            start,
            looks,
        ) == start,
        forall|i: int|
            0 <= i < looks.len() && (#[trigger] looks[i]).0 > 0 && (forall|k: int|
                i < k < looks.len() ==> (#[trigger] looks[k]).0 == 0) ==> idle_after_looks(start, looks)
                == looks[i].1,
        idle_after_looks(start, looks) == start || exists|i: int|
            0 <= i < looks.len() && (#[trigger] looks[i]).0 > 0 && idle_after_looks(start, looks)
                == looks[i].1,
    decreases looks.len(),
{
    if looks.len() > 0 {
        let fewer = looks.drop_last();
        let last = looks.len() - 1;
        idle_since_the_last_client(start, fewer);
        if looks[last].0 == 0 {
            assert forall|i: int|
                0 <= i < looks.len() && (#[trigger] looks[i]).0 > 0 && (forall|k: int|
                    i < k < looks.len() ==> (#[trigger] looks[k]).0 == 0) implies idle_after_looks(
                start,
                looks,
            ) == looks[i].1 by {
                assert(fewer[i] == looks[i]);
                assert forall|k: int| i < k < fewer.len() implies (#[trigger] fewer[k]).0 == 0 by {
                    assert(looks[k].0 == 0);
                }
            }
            if forall|k: int| 0 <= k < looks.len() ==> (#[trigger] looks[k]).0 == 0 {
                assert forall|k: int| 0 <= k < fewer.len() implies (#[trigger] fewer[k]).0 == 0 by {
                    assert(looks[k].0 == 0);
                }
            }
            if idle_after_looks(start, fewer) != start {
                let i = choose|i: int|
                    0 <= i < fewer.len() && (#[trigger] fewer[i]).0 > 0 && idle_after_looks(
                        start,
                        fewer,
                    ) == fewer[i].1;
                assert(looks[i].0 > 0);
            }
        } else {
            assert(looks[last].0 > 0);
            assert forall|i: int|
                0 <= i < looks.len() && (#[trigger] looks[i]).0 > 0 && (forall|k: int|
                    i < k < looks.len() ==> (#[trigger] looks[k]).0 == 0) implies idle_after_looks(
                start,
                looks,
            ) == looks[i].1 by {
                if i < last {
                    assert(looks[last].0 == 0);
                }
            }
        }
    }
}

impl LocalService {
    /// How long the server stays without clients.
    pub closed spec fn idle_timeout(&self) -> u64 {
        self.idle_timeout
    }

    /// Since when the server has been idle.
    pub closed spec fn idle_since(&self) -> u64 {
        self.idle_since
    }

    /// A server that has just started.
    pub fn new(idle_timeout: u64, now: u64) -> (service: Self)
        ensures
            service.idle_timeout() == idle_timeout,
            service.idle_since() == now,
    {
        LocalService { idle_timeout, idle_since: now }
    }

    /// Takes what a look for clients came to.
    pub fn accepted(&mut self, accept: Accept, active_clients: usize, now: u64) -> (step: ServiceStep)
        ensures
            final(self).idle_timeout() == old(self).idle_timeout(),
            final(self).idle_since() == idle_after(
                old(self).idle_since(),
                accept,
                active_clients as nat,
                now,
            ),
            is_service_step(
                old(self).idle_timeout(),
                old(self).idle_since(),
                accept,
                active_clients as nat,
                now,
                step,
            ),
    {
        match accept {
            Accept::Client => ServiceStep::Serve,
            Accept::Failed(message) => ServiceStep::Fail(
                concat("local server accept failed: ", message.as_str()),
            ),
            Accept::WouldBlock => {
                if active_clients == 0 {
                    let idle: u64 = if now >= self.idle_since {
                        now - self.idle_since
                    } else {
                        0
                    };
                    if idle >= self.idle_timeout {
                        return ServiceStep::Exit;
                    }
                } else {
                    self.idle_since = now;
                }
                ServiceStep::Sleep(25)
            },
        }
    }
}

/// The devices of a server come from one place, the one that is asked for: two of them
/// are refused, and so is the serial of a USB device without USB.
pub proof fn devices_come_from_one_place(
    has_devices_file: bool,
    tcp_devices: nat,
    usb: bool,
    has_usb_serial: bool,
)
    ensures
        ({
            let refusal = options_refusal(has_devices_file, tcp_devices, usb, has_usb_serial);
            let source = source_of(tcp_devices, usb);
            &&& refusal is None <==> {
                &&& !(has_devices_file && usb)
                &&& !(has_devices_file && tcp_devices > 0)
                &&& !(usb && tcp_devices > 0)
                &&& has_usb_serial ==> usb
            }
            &&& refusal is None ==> {
                &&& usb <==> source == DeviceSource::Usb
                &&& tcp_devices > 0 <==> source == DeviceSource::Tcp
                &&& has_devices_file ==> source == DeviceSource::Inventory
            }
        }),
{
}

/// A product number is read as it is written, in decimal digits or, behind its prefix,
/// in hexadecimal ones.
pub proof fn product_numbers_are_read_in_both_forms(number: u16, digits: Seq<char>)
    requires
        digits.len() > 0,
        number::all_digits(digits, 16),
    ensures
        id_digits(number::decimal(number as nat)) == (number::decimal(number as nat), 10u32),
        number::unsigned(number::decimal(number as nat), 10, u16::MAX as nat) == Some(
            number as nat,
        ),
        id_digits("0x"@ + digits) == (digits, 16u32),
        id_digits("0X"@ + digits) == (digits, 16u32),
{
    reveal_strlit("0x");
    reveal_strlit("0X");
    let decimal = number::decimal(number as nat);
    number::decimal_digits(number as nat);
    number::decimal_reads_back(number as nat, u16::MAX as nat);
    assert(number::digit_value(digits[digits.len() - 1], 16) is Some);
    assert('0' <= decimal[0] <= '9');
    assert('0' <= decimal[decimal.len() - 1] <= '9');
    let none = Seq::<char>::empty();
    text::only_surrounding_space_is_trimmed(none, decimal, none);
    assert(none + decimal + none =~= decimal);
    assert(!"0x"@.is_prefix_of(decimal) && !"0X"@.is_prefix_of(decimal)) by {
        if decimal.len() >= 2 {
            assert('0' <= decimal[1] <= '9');
            assert("0x"@[1] == 'x' && "0X"@[1] == 'X');
            assert(decimal.take(2)[1] == decimal[1]);
        }
    }
    let small = "0x"@ + digits;
    let large = "0X"@ + digits;
    text::only_surrounding_space_is_trimmed(none, small, none);
    text::only_surrounding_space_is_trimmed(none, large, none);
    assert(none + small + none =~= small);
    assert(none + large + none =~= large);
    assert("0x"@ =~= small.take(2));
    assert("0X"@ =~= large.take(2));
    assert(small.skip(2) =~= digits);
    assert(large.skip(2) =~= digits);
}

} // verus!
