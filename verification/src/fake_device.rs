//! A device that is always the same, for tests and local development.

use crate::link::PROTOCOL_VERSION;
use crate::model::{DeviceState, DeviceSummary, DeviceSummaryView};
use crate::provider;
use crate::provider::{DeviceRecord, DeviceRecordView, MemoryDeviceProvider, MemoryDeviceProviderView};
use crate::text;
use vstd::prelude::*;

verus! {

/// The serial number of the device.
pub const SERIAL: &'static str = "KT6-FAKE-0001";

/// What the device offers.
pub open spec fn offered() -> Seq<Seq<char>> {
    seq![
        "app.install.v1"@,
        "app.list.v1"@,
        "app.restart.v1"@,
        "app.rollback.v1"@,
        "app.start.v1"@,
        "app.stop.v1"@,
        "app.uninstall.v1"@,
        "exec.v1"@,
        "rpc.v1"@,
        "log.tail.v1"@,
        "process.list.v1"@,
        "process.signal.v1"@,
        "sync.v1"@,
    ]
}

/// The device.
pub open spec fn record() -> DeviceRecordView {
    DeviceRecordView {
        summary: DeviceSummaryView {
            serial: SERIAL@,
            model: "KT6"@,
            state: DeviceState::Online,
            transport: "fake-stdio"@,
        },
        protocol_version: PROTOCOL_VERSION,
        features: offered(),
    }
}

/// A provider of the device.
pub fn provider() -> (provider: MemoryDeviceProvider)
    ensures
        provider.wf(),
        provider@ == (MemoryDeviceProviderView {
            devices: seq![record()],
            runtime: provider::all_connected(seq![record()]),
        }),
{
    let mut features: Vec<String> = Vec::new();
    features.push("app.install.v1".to_owned());
    features.push("app.list.v1".to_owned());
    features.push("app.restart.v1".to_owned());
    features.push("app.rollback.v1".to_owned());
    features.push("app.start.v1".to_owned());
    features.push("app.stop.v1".to_owned());
    features.push("app.uninstall.v1".to_owned());
    features.push("exec.v1".to_owned());
    features.push("rpc.v1".to_owned());
    features.push("log.tail.v1".to_owned());
    features.push("process.list.v1".to_owned());
    features.push("process.signal.v1".to_owned());
    features.push("sync.v1".to_owned());
    assert(text::all(features@) =~= offered());
    let device = DeviceRecord {
        summary: DeviceSummary {
            serial: SERIAL.to_owned(),
            model: "KT6".to_owned(),
            state: DeviceState::Online,
            transport: "fake-stdio".to_owned(),
        },
        protocol_version: PROTOCOL_VERSION,
        features,
    };
    let mut devices: Vec<DeviceRecord> = Vec::new();
    devices.push(device);
    assert(provider::device_record_views(devices@) =~= seq![record()]);
    MemoryDeviceProvider::new(devices)
}

} // verus!
