//! Devices behind live sessions: who they are, what they offer, and what is
//! sent to them.

use crate::codec;
use crate::codec::to_lossy_text;
use crate::link;
use crate::link::{
    link_rpc_error, usb_failure_message, Command, DeviceHello, DeviceHelloView, LinkError,
};
use crate::model;
use crate::model::{
    AppInstallParams, AppInstallParamsView, DeviceFeatures, DeviceFeaturesView, DeviceState, DeviceSummary,
    DeviceSummaryView, SyncPushParams, SyncPushParamsView, SyncPushResult, SyncPushResultView,
    TransferState,
};
use crate::provider;
use crate::provider::{
    has_text, DeviceOperation, DeviceOperationResult, DeviceOperationResultView,
    DeviceOperationView, ProviderError, ProviderErrorView,
};
use crate::rpc_error;
use crate::rpc_error::{ErrorCode, ErrorDetail, ErrorDetailView, RpcError, RpcErrorView};
use crate::sorting;
use crate::sorting::sorted_set;
use crate::sync_client::DEFAULT_SYNC_BLOCK_SIZE;
use crate::text;
use crate::text::{concat, is_before, same_text};
use vstd::pervasive::unreached;
use vstd::prelude::*;

verus! {

/// A device with its session.
pub struct ConnectedDevice<S> {
    pub summary: DeviceSummary,
    pub features: DeviceFeatures,
    pub session: S,
}

/// The model of [`ConnectedDevice`], without its session.
#[verifier::ext_equal]
pub struct ConnectedDeviceView {
    pub summary: DeviceSummaryView,
    pub features: DeviceFeaturesView,
}

impl<S> View for ConnectedDevice<S> {
    type V = ConnectedDeviceView;

    open spec fn view(&self) -> ConnectedDeviceView {
        ConnectedDeviceView { summary: self.summary@, features: self.features@ }
    }
}

/// Devices behind live sessions, in ascending order of their serials.
pub struct ConnectedDeviceProvider<S> {
    devices: Vec<ConnectedDevice<S>>,
}

impl<S> View for ConnectedDeviceProvider<S> {
    type V = Seq<ConnectedDevice<S>>;

    closed spec fn view(&self) -> Seq<ConnectedDevice<S>> {
        self.devices@
    }
}

/// Whether a device is what its opening message says.
pub open spec fn introduced_by(
    device: ConnectedDeviceView,
    hello: DeviceHelloView,
    transport: Seq<char>,
) -> bool {
    &&& device.summary == (DeviceSummaryView {
        serial: hello.serial,
        model: hello.model,
        state: DeviceState::Online,
        transport,
    })
    &&& device.features.serial == hello.serial
    &&& device.features.protocol_version == hello.protocol_version
    &&& sorting::is_sorted_set(device.features.features, hello.features)
}

/// The models of a sequence of devices.
pub open spec fn device_views<S>(devices: Seq<ConnectedDevice<S>>) -> Seq<ConnectedDeviceView> {
    Seq::new(devices.len(), |i: int| devices[i]@)
}

/// The device with a serial, if there is one.
pub open spec fn lookup(devices: Seq<ConnectedDeviceView>, serial: Seq<char>) -> Option<
    ConnectedDeviceView,
>
    decreases devices.len(),
{
    if devices.len() == 0 {
        None
    } else if devices[0].summary.serial == serial {
        Some(devices[0])
    } else {
        lookup(devices.skip(1), serial)
    }
}

/// The device with a serial, if it has a feature.
pub open spec fn required(
    devices: Seq<ConnectedDeviceView>,
    serial: Seq<char>,
    feature: Seq<char>,
) -> Result<ConnectedDeviceView, RpcErrorView> {
    match lookup(devices, serial) {
        None => Err(rpc_error::device_not_found(serial)),
        Some(device) => if device.features.features.contains(feature) {
            Ok(device)
        } else {
            Err(rpc_error::feature_unavailable(serial, feature))
        },
    }
}

/// Whether the devices afterwards are those before and one more, which is what its
/// opening message says.
pub open spec fn adds<S>(
    before: Seq<ConnectedDevice<S>>,
    after: Seq<ConnectedDevice<S>>,
    session: S,
    hello: DeviceHelloView,
    transport: Seq<char>,
) -> bool {
    exists|position: int, device: ConnectedDevice<S>|
        0 <= position <= before.len() && after == #[trigger] before.insert(position, device)
            && device.session == session && introduced_by(device@, hello, transport)
}

/// Whether a device has a serial.
pub open spec fn has_serial<S>(device: ConnectedDevice<S>, serial: Seq<char>) -> bool {
    device.summary.serial@ == serial
}

impl<S> ConnectedDeviceProvider<S> {
    /// The serials strictly ascend.
    pub closed spec fn wf(&self) -> bool {
        forall|i: int, j: int|
            0 <= i < j < self.devices@.len() ==> text::before(
                (#[trigger] self.devices@[i]).summary.serial@,
                (#[trigger] self.devices@[j]).summary.serial@,
            )
    }

    /// No two devices have the same serial, and they are listed in order.
    pub proof fn serials_ascend(&self)
        requires
            self.wf(),
        ensures
            forall|i: int, j: int|
                0 <= i < j < self@.len() ==> text::before(
                    (#[trigger] self@[i]).summary.serial@,
                    (#[trigger] self@[j]).summary.serial@,
                ),
    {
    }

    /// No devices.
    pub fn new() -> (provider: Self)
        ensures
            provider.wf(),
            provider@ == Seq::<ConnectedDevice<S>>::empty(),
    {
        ConnectedDeviceProvider { devices: Vec::new() }
    }

    /// Adds the device that has opened a session. A serial that is already there
    /// is refused.
    pub fn add(&mut self, session: S, hello: DeviceHello, transport: &str) -> (result: Result<
        (),
        ProviderError,
    >)
        requires
            old(self).wf(),
        ensures
            final(self).wf(),
            match lookup(device_views(old(self)@), hello@.serial) {
                Some(_) => final(self)@ == old(self)@ && (result matches Err(failure) && failure@
                    == private_failure("duplicate device serial "@ + hello@.serial)),
                None => result is Ok && adds(
                    old(self)@,
                    final(self)@,
                    session,
                    hello@,
                    transport@,
                ),
            },
    {
        if self.find(hello.serial.as_str()).is_some() {
            return Err(
                ProviderError::new(
                    concat("duplicate device serial ", hello.serial.as_str()).as_str(),
                ),
            );
        }
        let ghost view = hello@;
        let features = sorted_set(&hello.features);
        let device = ConnectedDevice {
            summary: DeviceSummary {
                serial: hello.serial.clone(),
                model: hello.model,
                state: DeviceState::Online,
                transport: transport.to_owned(),
            },
            features: DeviceFeatures {
                serial: hello.serial,
                protocol_version: hello.protocol_version,
                features,
            },
            session,
        };
        assert(introduced_by(device@, view, transport@));
        let mut position: usize = 0;
        while position < self.devices.len() && is_before(
            self.devices[position].summary.serial.as_str(),
            device.summary.serial.as_str(),
        )
            invariant
                position <= self.devices@.len(),
                forall|i: int|
                    0 <= i < position ==> text::before(
                        (#[trigger] self.devices@[i]).summary.serial@,
                        device.summary.serial@,
                    ),
            decreases self.devices@.len() - position,
        {
            position += 1;
        }
        let ghost before = self.devices@;
        let ghost added = device;
        self.devices.insert(position, device);
        proof {
            assert(self.devices@ == before.insert(position as int, added));
            assert forall|i: int| position <= i < before.len() implies text::before(
                added.summary.serial@,
                (#[trigger] before[i]).summary.serial@,
            ) by {
                assert(!has_serial(before[i], added.summary.serial@));
                text::before_total(before[position as int].summary.serial@, added.summary.serial@);
                assert(!has_serial(before[position as int], added.summary.serial@));
                if i > position {
                    text::before_transitive(
                        added.summary.serial@,
                        before[position as int].summary.serial@,
                        before[i].summary.serial@,
                    );
                }
            }
            assert forall|i: int, j: int| 0 <= i < j < self.devices@.len() implies text::before(
                (#[trigger] self.devices@[i]).summary.serial@,
                (#[trigger] self.devices@[j]).summary.serial@,
            ) by {
                if i == position {
                    assert(self.devices@[j] == before[j - 1]);
                } else if j == position {
                    assert(self.devices@[i] == before[i]);
                } else {
                    let i0 = if i < position { i } else { i - 1 };
                    let j0 = if j < position { j } else { j - 1 };
                    assert(text::before(before[i0].summary.serial@, before[j0].summary.serial@));
                }
            }
        }
        Ok(())
    }

    /// The device with a serial.
    pub fn find(&self, serial: &str) -> (device: Option<&ConnectedDevice<S>>)
        ensures
            match device {
                Some(found) => has_serial(*found, serial@) && self@.contains(*found) && lookup(
                    device_views(self@),
                    serial@,
                ) == Some(found@),
                None => lookup(device_views(self@), serial@) is None && forall|i: int|
                    0 <= i < self@.len() ==> !#[trigger] has_serial(self@[i], serial@),
            },
    {
        let mut i: usize = 0;
        let ghost views = device_views(self@);
        assert(views.skip(0) =~= views);
        while i < self.devices.len()
            invariant
                i <= self.devices.len(),
                views == device_views(self.devices@),
                lookup(views, serial@) == lookup(views.skip(i as int), serial@),
                forall|k: int|
                    0 <= k < i ==> !#[trigger] has_serial(self.devices@[k], serial@),
            decreases self.devices.len() - i,
        {
            assert(views.skip(i as int)[0] == self.devices@[i as int]@);
            assert(views.skip(i as int).skip(1) =~= views.skip(i + 1));
            if same_text(self.devices[i].summary.serial.as_str(), serial) {
                assert(self@[i as int] == self.devices@[i as int]);
                return Some(&self.devices[i]);
            }
            i += 1;
        }
        assert(views.skip(i as int).len() == 0);
        None
    }

    /// The devices as listed.
    pub fn list(&self) -> (devices: Vec<DeviceSummary>)
        ensures
            devices@.len() == self@.len(),
            forall|i: int|
                0 <= i < devices@.len() ==> (#[trigger] devices@[i])@ == self@[i].summary@,
    {
        let mut devices: Vec<DeviceSummary> = Vec::new();
        let mut i: usize = 0;
        while i < self.devices.len()
            invariant
                i <= self.devices.len(),
                devices@.len() == i,
                forall|k: int|
                    0 <= k < i ==> (#[trigger] devices@[k])@ == self.devices@[k].summary@,
            decreases self.devices.len() - i,
        {
            devices.push(self.devices[i].summary.duplicate());
            i += 1;
        }
        devices
    }

    /// What a device offers.
    pub fn features(&self, serial: &str) -> (features: Option<DeviceFeatures>)
        ensures
            match lookup(device_views(self@), serial@) {
                Some(device) => features matches Some(found) && found@ == device.features,
                None => features is None,
            },
    {
        match self.find(serial) {
            Some(device) => Some(device.features.duplicate()),
            None => None,
        }
    }

    /// The device with a serial, if it has a feature.
    pub fn require_feature(&self, serial: &str, feature: &str) -> (device: Result<
        &ConnectedDevice<S>,
        RpcError,
    >)
        ensures
            match required(device_views(self@), serial@, feature@) {
                Ok(device_view) => device matches Ok(found) && found@ == device_view && self@.contains(
                    *found,
                ),
                Err(refusal) => device matches Err(error) && error@ == refusal,
            },
    {
        match self.find(serial) {
            None => Err(RpcError::device_not_found(serial)),
            Some(device) => {
                if has_text(&device.features.features, feature) {
                    Ok(device)
                } else {
                    Err(RpcError::feature_unavailable(serial, feature))
                }
            },
        }
    }

    /// Whether there are devices and every one of them is online.
    pub fn is_online<O: Fn(&S) -> bool>(&self, online: O) -> (result: bool)
        requires
            forall|session: &S| online.requires((session,)),
        ensures
            result ==> self@.len() > 0 && forall|i: int|
                0 <= i < self@.len() ==> online.ensures((&(#[trigger] self@[i]).session,), true),
            !result ==> self@.len() == 0 || exists|i: int|
                0 <= i < self@.len() && online.ensures((&(#[trigger] self@[i]).session,), false),
    {
        if self.devices.len() == 0 {
            return false;
        }
        let mut i: usize = 0;
        while i < self.devices.len()
            invariant
                i <= self.devices.len(),
                forall|session: &S| online.requires((session,)),
                forall|k: int|
                    0 <= k < i ==> online.ensures((&(#[trigger] self.devices@[k]).session,), true),
            decreases self.devices.len() - i,
        {
            if !online(&self.devices[i].session) {
                assert(online.ensures((&self@[i as int].session,), false));
                return false;
            }
            i += 1;
        }
        true
    }
}

/// What a device method needs its device to offer.
#[derive(Clone, Copy, Debug, PartialEq, Eq, Structural)]
pub enum DeviceMethod {
    SyncStatus,
    SyncList,
    SyncMkdir,
    AppInstall,
    AppStart,
    AppStop,
    AppRestart,
    AppRollback,
    AppUninstall,
    AppList,
    AppLog,
    ProcessList,
    ProcessSignal,
    LogTail,
    Shell,
    Transfer,
}

/// The feature that a device method needs.
pub open spec fn needed_feature(method: DeviceMethod) -> Seq<char> {
    match method {
        DeviceMethod::SyncStatus => "sync.v1"@,
        DeviceMethod::SyncList => "sync.tree.v1"@,
        DeviceMethod::SyncMkdir => "sync.tree.v1"@,
        DeviceMethod::AppInstall => "app.install.v1"@,
        DeviceMethod::AppStart => "app.start.v1"@,
        DeviceMethod::AppStop => "app.stop.v1"@,
        DeviceMethod::AppRestart => "app.restart.v1"@,
        DeviceMethod::AppRollback => "app.rollback.v1"@,
        DeviceMethod::AppUninstall => "app.uninstall.v1"@,
        DeviceMethod::AppList => "app.list.v1"@,
        DeviceMethod::AppLog => "app.log.v1"@,
        DeviceMethod::ProcessList => "process.list.v1"@,
        DeviceMethod::ProcessSignal => "process.signal.v1"@,
        DeviceMethod::LogTail => "log.tail.v1"@,
        DeviceMethod::Shell => "shell.v2"@,
        DeviceMethod::Transfer => "sync.v1"@,
    }
}

impl DeviceMethod {
    /// The feature that this method needs.
    pub fn feature(self) -> (feature: &'static str)
        ensures
            feature@ == needed_feature(self),
    {
        match self {
            DeviceMethod::SyncStatus => "sync.v1",
            DeviceMethod::SyncList => "sync.tree.v1",
            DeviceMethod::SyncMkdir => "sync.tree.v1",
            DeviceMethod::AppInstall => "app.install.v1",
            DeviceMethod::AppStart => "app.start.v1",
            DeviceMethod::AppStop => "app.stop.v1",
            DeviceMethod::AppRestart => "app.restart.v1",
            DeviceMethod::AppRollback => "app.rollback.v1",
            DeviceMethod::AppUninstall => "app.uninstall.v1",
            DeviceMethod::AppList => "app.list.v1",
            DeviceMethod::AppLog => "app.log.v1",
            DeviceMethod::ProcessList => "process.list.v1",
            DeviceMethod::ProcessSignal => "process.signal.v1",
            DeviceMethod::LogTail => "log.tail.v1",
            DeviceMethod::Shell => "shell.v2",
            DeviceMethod::Transfer => "sync.v1",
        }
    }
}

/// What a provider failure says that clients learn nothing of.
pub open spec fn private_failure(message: Seq<char>) -> ProviderErrorView {
    ProviderErrorView { message, public_message: None }
}

impl<S> ConnectedDeviceProvider<S> {
    /// Adds the device behind an address, once its session is open. A session that
    /// could not be opened fails the provider; where the device itself refused it,
    /// `said` is the debug form of what it said.
    pub fn connect(&mut self, link: Result<(S, DeviceHello), LinkError>, said: &str) -> (result:
        Result<(), ProviderError>)
        requires
            old(self).wf(),
        ensures
            final(self).wf(),
            match link {
                Err(error) => final(self)@ == old(self)@ && (result matches Err(failure)
                    && failure@ == private_failure(link::message_of(error@, said@))),
                Ok((session, hello)) => match lookup(device_views(old(self)@), hello@.serial) {
                    Some(_) => final(self)@ == old(self)@ && (result matches Err(failure)
                        && failure@ == private_failure(
                        "duplicate device serial "@ + hello@.serial,
                    )),
                    None => result is Ok && adds(
                        old(self)@,
                        final(self)@,
                        session,
                        hello@,
                        "tcp"@,
                    ),
                },
            },
    {
        match link {
            Err(error) => Err(ProviderError::new(error.to_text(said).as_str())),
            Ok((session, hello)) => self.add(session, hello, "tcp"),
        }
    }

    /// The device at the USB ports, if one is attached. Clients are told why no session
    /// could be opened with one that is.
    pub fn connect_usb(link: Result<(S, DeviceHello), LinkError>) -> (result: Result<
        Self,
        ProviderError,
    >)
        ensures
            match link {
                Err(error) => match link::usb_failure(error@) {
                    None => result matches Ok(provider) && provider.wf() && provider@ == Seq::<
                        ConnectedDevice<S>,
                    >::empty(),
                    Some(message) => result matches Err(failure) && failure@ == (
                    ProviderErrorView { message, public_message: Some(message) }),
                },
                Ok((session, hello)) => result matches Ok(provider) && provider.wf() && adds(
                    Seq::empty(),
                    provider@,
                    session,
                    hello@,
                    "usb"@,
                ),
            },
    {
        let mut provider: ConnectedDeviceProvider<S> = ConnectedDeviceProvider::new();
        match link {
            Err(error) => match usb_failure_message(&error) {
                None => Ok(provider),
                Some(message) => Err(ProviderError::public(message.as_str())),
            },
            Ok((session, hello)) => {
                assert(device_views(provider@) =~= Seq::empty());
                provider.add(session, hello, "usb")?;
                Ok(provider)
            },
        }
    }
}

/// What is to be done for a request to live devices.
#[derive(Debug)]
pub enum SessionRequest {
    /// It is answered at once.
    Answered(DeviceOperationResult),
    /// The device with this serial is pinged.
    Ping(String),
    /// The device is called with the method and the parameters of this request.
    Call(DeviceOperation),
    /// A file is transferred to or from the device.
    Transfer(DeviceOperation),
    /// A bundle is uploaded to the device and installed there.
    Install(AppInstallParams),
}

/// The model of [`SessionRequest`].
#[verifier::ext_equal]
pub enum SessionRequestView {
    Answered(DeviceOperationResultView),
    Ping(Seq<char>),
    Call(DeviceOperationView),
    Transfer(DeviceOperationView),
    Install(AppInstallParamsView),
}

impl View for SessionRequest {
    type V = SessionRequestView;

    open spec fn view(&self) -> SessionRequestView {
        match *self {
            SessionRequest::Answered(result) => SessionRequestView::Answered(result@),
            SessionRequest::Ping(serial) => SessionRequestView::Ping(serial@),
            SessionRequest::Call(operation) => SessionRequestView::Call(operation@),
            SessionRequest::Transfer(operation) => SessionRequestView::Transfer(operation@),
            SessionRequest::Install(params) => SessionRequestView::Install(params@),
        }
    }
}

/// What is to be done for a request once its device is known to have a feature.
pub open spec fn with_feature(
    devices: Seq<ConnectedDeviceView>,
    serial: Seq<char>,
    method: DeviceMethod,
    request: SessionRequestView,
) -> Result<SessionRequestView, RpcErrorView> {
    match required(devices, serial, needed_feature(method)) {
        Ok(_) => Ok(request),
        Err(error) => Err(error),
    }
}

/// The devices as listed.
pub open spec fn summaries(devices: Seq<ConnectedDeviceView>) -> Seq<DeviceSummaryView> {
    Seq::new(devices.len(), |i: int| devices[i].summary)
}

/// What is to be done for a request. A device that is not there has no answer to a
/// ping or to a command, and refuses everything else; what a device does not offer it
/// is not asked for, but a command is left to it.
pub open spec fn planned(devices: Seq<ConnectedDeviceView>, operation: DeviceOperationView) -> Result<
    SessionRequestView,
    RpcErrorView,
> {
    let call = SessionRequestView::Call(operation);
    match operation {
        DeviceOperationView::List => Ok(
            SessionRequestView::Answered(
                DeviceOperationResultView::Devices(summaries(devices)),
            ),
        ),
        DeviceOperationView::Features(serial) => Ok(
            SessionRequestView::Answered(
                DeviceOperationResultView::Features(
                    match lookup(devices, serial) {
                        Some(device) => Some(device.features),
                        None => None,
                    },
                ),
            ),
        ),
        DeviceOperationView::Ping(serial) => if lookup(devices, serial) is Some {
            Ok(SessionRequestView::Ping(serial))
        } else {
            Ok(SessionRequestView::Answered(DeviceOperationResultView::Ping(false)))
        },
        DeviceOperationView::Exec(params) => if lookup(devices, params.serial) is Some {
            Ok(call)
        } else {
            Ok(SessionRequestView::Answered(DeviceOperationResultView::Exec(None)))
        },
        DeviceOperationView::SyncPush(params, _) => with_feature(
            devices,
            params.serial,
            DeviceMethod::Transfer,
            SessionRequestView::Transfer(operation),
        ),
        DeviceOperationView::SyncPull(params, _) => with_feature(
            devices,
            params.serial,
            DeviceMethod::Transfer,
            SessionRequestView::Transfer(operation),
        ),
        DeviceOperationView::SyncStatus(params) => with_feature(
            devices,
            params.serial,
            DeviceMethod::SyncStatus,
            call,
        ),
        DeviceOperationView::SyncList(params) => with_feature(
            devices,
            params.serial,
            DeviceMethod::SyncList,
            call,
        ),
        DeviceOperationView::SyncMkdir(params) => with_feature(
            devices,
            params.serial,
            DeviceMethod::SyncMkdir,
            call,
        ),
        DeviceOperationView::AppInstall(params, _) => match required(
            devices,
            params.serial,
            needed_feature(DeviceMethod::AppInstall),
        ) {
            Ok(_) => with_feature(
                devices,
                params.serial,
                DeviceMethod::Transfer,
                SessionRequestView::Install(params),
            ),
            Err(error) => Err(error),
        },
        DeviceOperationView::AppStart(params) => with_feature(
            devices,
            params.serial,
            DeviceMethod::AppStart,
            call,
        ),
        DeviceOperationView::AppStop(params) => with_feature(
            devices,
            params.serial,
            DeviceMethod::AppStop,
            call,
        ),
        DeviceOperationView::AppRestart(params) => with_feature(
            devices,
            params.serial,
            DeviceMethod::AppRestart,
            call,
        ),
        DeviceOperationView::AppRollback(params) => with_feature(
            devices,
            params.serial,
            DeviceMethod::AppRollback,
            call,
        ),
        DeviceOperationView::AppUninstall(params) => with_feature(
            devices,
            params.serial,
            DeviceMethod::AppUninstall,
            call,
        ),
        DeviceOperationView::AppList(params) => with_feature(
            devices,
            params.serial,
            DeviceMethod::AppList,
            call,
        ),
        DeviceOperationView::AppLog(params) => with_feature(
            devices,
            params.serial,
            DeviceMethod::AppLog,
            call,
        ),
        DeviceOperationView::ProcessList(params) => with_feature(
            devices,
            params.serial,
            DeviceMethod::ProcessList,
            call,
        ),
        DeviceOperationView::ProcessSignal(params) => with_feature(
            devices,
            params.serial,
            DeviceMethod::ProcessSignal,
            call,
        ),
        DeviceOperationView::LogTail(params) => with_feature(
            devices,
            params.serial,
            DeviceMethod::LogTail,
            call,
        ),
    }
}

/// The method that a request calls on its device, and the device, where it is one that
/// needs nothing else.
fn call_target(operation: &DeviceOperation) -> (target: Option<(&str, DeviceMethod)>)
    ensures
        match target {
            Some((serial, method)) => forall|devices: Seq<ConnectedDeviceView>| #[trigger]
                planned(devices, operation@) == with_feature(
                    devices,
                    serial@,
                    method,
                    SessionRequestView::Call(operation@),
                ),
            None => operation@ is List || operation@ is Features || operation@ is Ping || operation@
                is Exec || operation@ is SyncPush || operation@ is SyncPull || operation@
                is AppInstall,
        },
{
    match operation {
        DeviceOperation::SyncStatus(params) => Some(
            (params.serial.as_str(), DeviceMethod::SyncStatus),
        ),
        DeviceOperation::SyncList(params) => Some((params.serial.as_str(), DeviceMethod::SyncList)),
        DeviceOperation::SyncMkdir(params) => Some(
            (params.serial.as_str(), DeviceMethod::SyncMkdir),
        ),
        DeviceOperation::AppStart(params) => Some((params.serial.as_str(), DeviceMethod::AppStart)),
        DeviceOperation::AppStop(params) => Some((params.serial.as_str(), DeviceMethod::AppStop)),
        DeviceOperation::AppRestart(params) => Some(
            (params.serial.as_str(), DeviceMethod::AppRestart),
        ),
        DeviceOperation::AppRollback(params) => Some(
            (params.serial.as_str(), DeviceMethod::AppRollback),
        ),
        DeviceOperation::AppUninstall(params) => Some(
            (params.serial.as_str(), DeviceMethod::AppUninstall),
        ),
        DeviceOperation::AppList(params) => Some((params.serial.as_str(), DeviceMethod::AppList)),
        DeviceOperation::AppLog(params) => Some((params.serial.as_str(), DeviceMethod::AppLog)),
        DeviceOperation::ProcessList(params) => Some(
            (params.serial.as_str(), DeviceMethod::ProcessList),
        ),
        DeviceOperation::ProcessSignal(params) => Some(
            (params.serial.as_str(), DeviceMethod::ProcessSignal),
        ),
        DeviceOperation::LogTail(params) => Some((params.serial.as_str(), DeviceMethod::LogTail)),
        _ => None,
    }
}

impl<S> ConnectedDeviceProvider<S> {
    /// Decides what is to be done for a request.
    pub fn perform(&self, operation: DeviceOperation) -> (request: Result<SessionRequest, RpcError>)
        ensures
            rpc_error::outcome(request) == planned(device_views(self@), operation@),
    {
        if let Some((serial, method)) = call_target(&operation) {
            self.require_feature(serial, method.feature())?;
            return Ok(SessionRequest::Call(operation));
        }
        match operation {
            DeviceOperation::List => {
                let devices = self.list();
                assert(model::device_summary_views(devices@) =~= summaries(device_views(self@)));
                Ok(SessionRequest::Answered(DeviceOperationResult::Devices(devices)))
            },
            DeviceOperation::Features(serial) => Ok(
                SessionRequest::Answered(
                    DeviceOperationResult::Features(self.features(serial.as_str())),
                ),
            ),
            DeviceOperation::Ping(serial) => {
                if self.find(serial.as_str()).is_some() {
                    Ok(SessionRequest::Ping(serial))
                } else {
                    Ok(SessionRequest::Answered(DeviceOperationResult::Ping(false)))
                }
            },
            DeviceOperation::Exec(params) => {
                if self.find(params.serial.as_str()).is_some() {
                    Ok(SessionRequest::Call(DeviceOperation::Exec(params)))
                } else {
                    Ok(SessionRequest::Answered(DeviceOperationResult::Exec(None)))
                }
            },
            DeviceOperation::AppInstall(params, _) => {
                self.require_feature(params.serial.as_str(), DeviceMethod::AppInstall.feature())?;
                self.require_feature(params.serial.as_str(), DeviceMethod::Transfer.feature())?;
                Ok(SessionRequest::Install(params))
            },
            DeviceOperation::SyncPush(params, file) => {
                self.require_feature(params.serial.as_str(), DeviceMethod::Transfer.feature())?;
                Ok(SessionRequest::Transfer(DeviceOperation::SyncPush(params, file)))
            },
            DeviceOperation::SyncPull(params, absolute) => {
                self.require_feature(params.serial.as_str(), DeviceMethod::Transfer.feature())?;
                Ok(SessionRequest::Transfer(DeviceOperation::SyncPull(params, absolute)))
            },
            _ => unreached(),
        }
    }
}

impl<S> ConnectedDeviceProvider<S> {
    /// The session on which a shell of a device is opened.
    pub fn open_shell(&self, serial: &str) -> (session: Result<&S, RpcError>)
        ensures
            match required(device_views(self@), serial@, needed_feature(DeviceMethod::Shell)) {
                Ok(device) => session matches Ok(found) && exists|i: int|
                    0 <= i < self@.len() && (#[trigger] self@[i])@ == device && self@[i].session
                        == *found,
                Err(refusal) => session matches Err(error) && error@ == refusal,
            },
    {
        let device = self.require_feature(serial, DeviceMethod::Shell.feature())?;
        Ok(&device.session)
    }
}

/// What a session answers.
#[derive(Debug)]
pub enum SessionAnswer {
    /// The link failed, or the device refused.
    Failed(LinkError),
    /// The device answered something else than what was asked for.
    Unreadable,
    /// The device is there.
    Pong,
    Done(DeviceOperationResult),
}

/// How the answer of a session is taken.
pub open spec fn answered_by(answer: SessionAnswer) -> Result<
    DeviceOperationResultView,
    RpcErrorView,
> {
    match answer {
        SessionAnswer::Failed(error) => Err(link::told_of(error@)),
        SessionAnswer::Unreadable => Err(
            rpc_error::plain_error(ErrorCode::InternalError, "Internal error"@),
        ),
        SessionAnswer::Pong => Ok(DeviceOperationResultView::Ping(true)),
        SessionAnswer::Done(result) => Ok(result@),
    }
}

/// Takes the answer of a session.
pub fn session_answer(answer: SessionAnswer) -> (result: Result<DeviceOperationResult, RpcError>)
    ensures
        rpc_error::outcome(result) == answered_by(answer),
{
    match answer {
        SessionAnswer::Failed(error) => Err(link_rpc_error(error)),
        SessionAnswer::Unreadable => Err(RpcError::internal_error()),
        SessionAnswer::Pong => Ok(DeviceOperationResult::Ping(true)),
        SessionAnswer::Done(result) => Ok(result),
    }
}

/// What the host found of a bundle that is to be installed on a live device.
#[derive(Debug)]
pub enum UploadBundle {
    /// The path is not absolute.
    NotAbsolute,
    /// The file cannot be opened or looked at.
    Unusable(RpcError),
    /// The path names something else than a file.
    NotAFile,
    /// The bundle did not verify.
    Rejected { reason: String, detail: String },
    /// A verified bundle of this size and digest.
    Verified { application: bool, total_size: u64, file_hash: String },
}

/// An application bundle that can be uploaded.
#[derive(Debug)]
pub struct BundleUpload {
    serial: String,
    bundle_path: String,
    total_size: u64,
    file_hash: String,
}

/// The model of [`BundleUpload`].
#[verifier::ext_equal]
pub struct BundleUploadView {
    pub serial: Seq<char>,
    pub bundle_path: Seq<char>,
    pub total_size: u64,
    pub file_hash: Seq<char>,
}

impl View for BundleUpload {
    type V = BundleUploadView;

    closed spec fn view(&self) -> BundleUploadView {
        BundleUploadView {
            serial: self.serial@,
            bundle_path: self.bundle_path@,
            total_size: self.total_size,
            file_hash: self.file_hash@,
        }
    }
}

/// How what the host found of a bundle is taken.
pub open spec fn bundle_checked(params: AppInstallParamsView, bundle: UploadBundle) -> Result<
    BundleUploadView,
    RpcErrorView,
> {
    match bundle {
        UploadBundle::NotAbsolute => Err(
            rpc_error::invalid_params("host paths must be absolute"@),
        ),
        UploadBundle::Unusable(error) => Err(error@),
        UploadBundle::NotAFile => Err(rpc_error::invalid_params("bundle_path must name a file"@)),
        UploadBundle::Rejected { reason, detail } => Err(
            rpc_error::install_failed("host_verify"@, reason@, detail@),
        ),
        UploadBundle::Verified { application, total_size, file_hash } => if application {
            Ok(
                BundleUploadView {
                    serial: params.serial,
                    bundle_path: params.bundle_path,
                    total_size,
                    file_hash: file_hash@,
                },
            )
        } else {
            Err(
                rpc_error::install_failed(
                    "host_verify"@,
                    "bundle_kind"@,
                    "app install accepts application bundles only"@,
                ),
            )
        },
    }
}

/// The push that uploads a bundle.
pub open spec fn upload_push(upload: BundleUploadView) -> SyncPushParamsView {
    SyncPushParamsView {
        serial: upload.serial,
        local_path: upload.bundle_path,
        remote_path: bundle_remote_path(upload.file_hash),
        transfer_id: None,
        block_size: DEFAULT_SYNC_BLOCK_SIZE,
    }
}

/// Whether this is what the device is asked to install once an upload has come so
/// far.
pub open spec fn is_install_request(
    upload: BundleUploadView,
    pushed: SyncPushResultView,
    params: Result<DeviceAppInstallParams, RpcError>,
) -> bool {
    match params {
        Ok(request) => {
            &&& pushed.state == TransferState::Complete
            &&& pushed.accepted_offset == upload.total_size
            &&& request.serial@ == upload.serial
            &&& request.remote_path@ == bundle_remote_path(upload.file_hash)
            &&& request.file_hash@ == upload.file_hash
        },
        Err(error) => {
            &&& pushed.state != TransferState::Complete || pushed.accepted_offset
                != upload.total_size
            &&& error@ == (RpcErrorView {
                code: ErrorCode::InvalidState,
                message: "Bundle upload did not complete"@,
                detail: ErrorDetailView::Upload {
                    transfer_id: pushed.transfer_id,
                    accepted_offset: pushed.accepted_offset,
                    total_size: upload.total_size,
                },
            })
        },
    }
}

/// Where a bundle is uploaded to.
pub open spec fn bundle_remote_path(file_hash: Seq<char>) -> Seq<char> {
    "packages/kbb/"@ + file_hash + ".kbb"@
}

/// What the device is asked to install.
#[derive(Debug)]
pub struct DeviceAppInstallParams {
    pub serial: String,
    pub remote_path: String,
    pub file_hash: String,
}

impl BundleUpload {
    /// Checks what the host found of a bundle.
    pub fn check(params: &AppInstallParams, bundle: UploadBundle) -> (upload: Result<
        BundleUpload,
        RpcError,
    >)
        ensures
            rpc_error::outcome(upload) == bundle_checked(params@, bundle),
    {
        match bundle {
            UploadBundle::NotAbsolute => Err(
                RpcError::invalid_params("host paths must be absolute"),
            ),
            UploadBundle::Unusable(error) => Err(error),
            UploadBundle::NotAFile => Err(
                RpcError::invalid_params("bundle_path must name a file"),
            ),
            UploadBundle::Rejected { reason, detail } => Err(
                RpcError::install_failed("host_verify", reason.as_str(), detail.as_str()),
            ),
            UploadBundle::Verified { application, total_size, file_hash } => {
                if application {
                    Ok(
                        BundleUpload {
                            serial: params.serial.clone(),
                            bundle_path: params.bundle_path.clone(),
                            total_size,
                            file_hash,
                        },
                    )
                } else {
                    Err(
                        RpcError::install_failed(
                            "host_verify",
                            "bundle_kind",
                            "app install accepts application bundles only",
                        ),
                    )
                }
            },
        }
    }

    fn remote_path(&self) -> (path: String)
        ensures
            path@ == bundle_remote_path(self@.file_hash),
    {
        let mut path = concat("packages/kbb/", self.file_hash.as_str());
        path.append(".kbb");
        path
    }

    /// The push that uploads the bundle.
    pub fn push(&self) -> (params: SyncPushParams)
        ensures
            params@ == upload_push(self@),
    {
        SyncPushParams {
            serial: self.serial.clone(),
            local_path: self.bundle_path.clone(),
            remote_path: self.remote_path(),
            transfer_id: None,
            block_size: DEFAULT_SYNC_BLOCK_SIZE,
        }
    }

    /// What the device is asked to install once the upload is complete.
    pub fn install(&self, pushed: &SyncPushResult) -> (params: Result<
        DeviceAppInstallParams,
        RpcError,
    >)
        ensures
            is_install_request(self@, pushed@, params),
    {
        if pushed.state != TransferState::Complete || pushed.accepted_offset != self.total_size {
            return Err(
                RpcError {
                    code: ErrorCode::InvalidState,
                    message: "Bundle upload did not complete".to_owned(),
                    detail: ErrorDetail::Upload {
                        transfer_id: pushed.transfer_id.clone(),
                        accepted_offset: pushed.accepted_offset,
                        total_size: self.total_size,
                    },
                },
            );
        }
        Ok(
            DeviceAppInstallParams {
                serial: self.serial.clone(),
                remote_path: self.remote_path(),
                file_hash: self.file_hash.clone(),
            },
        )
    }
}

/// The size of a terminal.
#[derive(Clone, Copy, Debug, PartialEq, Eq, Structural)]
pub struct TerminalSize {
    pub rows: u16,
    pub columns: u16,
    pub pixel_width: u16,
    pub pixel_height: u16,
}

/// How a shell process ended.
#[derive(Clone, Copy, Debug, PartialEq, Eq, Structural)]
pub struct ShellExit {
    pub exit_code: i32,
    pub signal: u32,
}

/// A packet on a shell stream.
#[derive(Debug, PartialEq, Eq)]
pub enum ShellPacket {
    Stdin(Vec<u8>),
    CloseStdin,
    Resize(TerminalSize),
    Stdout(Vec<u8>),
    Stderr(Vec<u8>),
    Exit(ShellExit),
}

/// Whether a packet goes from the host to the device.
pub open spec fn from_host(packet: ShellPacket) -> bool {
    packet is Stdin || packet is CloseStdin || packet is Resize
}

/// What a shell stream gives the host.
#[derive(Debug, PartialEq, Eq)]
pub enum DeviceShellEvent {
    Packet(ShellPacket),
    Closed,
}

/// What becomes of a packet that the host wants to send.
#[derive(Debug)]
pub enum ShellSend {
    /// It is sent.
    Send,
    /// It is refused.
    Refused(ProviderError),
    /// The stream is reset for this reason, and the packet refused.
    Reset(String, ProviderError),
}

/// Whether this is what becomes of a packet that the host wants to send.
pub open spec fn is_shell_send(
    packet: ShellPacket,
    accepted: Result<(), String>,
    decision: ShellSend,
) -> bool {
    if !from_host(packet) {
        decision matches ShellSend::Refused(error) && error@ == (ProviderErrorView {
            message: "invalid host shell packet direction"@,
            public_message: None,
        })
    } else {
        match accepted {
            Ok(()) => decision == ShellSend::Send,
            Err(reason) => decision matches ShellSend::Reset(sent, error) && sent@ == reason@
                && error@ == (ProviderErrorView { message: reason@, public_message: None }),
        }
    }
}

/// Decides whether the host may send a packet. `accepted` is what the state of
/// the stream says of it.
pub fn shell_send(packet: &ShellPacket, accepted: Result<(), String>) -> (decision: ShellSend)
    ensures
        is_shell_send(*packet, accepted, decision),
{
    let outgoing = match packet {
        ShellPacket::Stdin(_) => true,
        ShellPacket::CloseStdin => true,
        ShellPacket::Resize(_) => true,
        _ => false,
    };
    if !outgoing {
        return ShellSend::Refused(ProviderError::new("invalid host shell packet direction"));
    }
    match accepted {
        Ok(()) => ShellSend::Send,
        Err(reason) => {
            let error = ProviderError::new(reason.as_str());
            ShellSend::Reset(reason, error)
        },
    }
}

/// What a data frame on a shell stream holds: a packet that the stream accepts,
/// or why it holds none.
#[derive(Debug)]
pub enum ShellPayload {
    Packet(ShellPacket),
    Malformed(String),
}

/// Why nothing was received on a shell stream, and whether the stream is to be
/// reset.
#[derive(Debug)]
pub struct ShellFailure {
    pub reset: Option<String>,
    pub error: ProviderError,
}

/// The name of a frame kind.
pub open spec fn command_name(command: Command) -> Seq<char> {
    match command {
        Command::Hello => "Hello"@,
        Command::Open => "Open"@,
        Command::Data => "Data"@,
        Command::Credit => "Credit"@,
        Command::Close => "Close"@,
        Command::Reset => "Reset"@,
        Command::Ping => "Ping"@,
        Command::Pong => "Pong"@,
        Command::GoAway => "GoAway"@,
    }
}

fn name_of_command(command: Command) -> (name: &'static str)
    ensures
        name@ == command_name(command),
{
    match command {
        Command::Hello => "Hello",
        Command::Open => "Open",
        Command::Data => "Data",
        Command::Credit => "Credit",
        Command::Close => "Close",
        Command::Reset => "Reset",
        Command::Ping => "Ping",
        Command::Pong => "Pong",
        Command::GoAway => "GoAway",
    }
}

/// A failure that leaves the stream alone.
pub open spec fn failure_is(
    failure: ShellFailure,
    reset: Option<Seq<char>>,
    message: Seq<char>,
) -> bool {
    text::optional(failure.reset) == reset && failure.error@ == (ProviderErrorView {
        message,
        public_message: None,
    })
}

/// Whether this is what a frame from a shell stream gives.
pub open spec fn is_shell_event(
    command: Command,
    payload: ShellPayload,
    raw: Seq<u8>,
    event: Result<DeviceShellEvent, ShellFailure>,
) -> bool {
    match command {
        Command::Data => match payload {
            ShellPayload::Packet(packet) => event == Ok::<_, ShellFailure>(
                DeviceShellEvent::Packet(packet),
            ),
            ShellPayload::Malformed(reason) => event matches Err(failure) && failure_is(
                failure,
                Some(reason@),
                reason@,
            ),
        },
        Command::Close => event == Ok::<_, ShellFailure>(DeviceShellEvent::Closed),
        Command::Reset => event matches Err(failure) && failure_is(
            failure,
            None,
            "device reset shell stream: "@ + codec::lossy_text(raw),
        ),
        _ => event matches Err(failure) && failure_is(
            failure,
            None,
            "unexpected "@ + command_name(command) + " on shell stream"@,
        ),
    }
}

/// Takes a frame from a shell stream. `payload` is what a data frame holds, and
/// `raw` the bytes of the frame.
pub fn shell_receive(command: Command, payload: ShellPayload, raw: &[u8]) -> (event: Result<
    DeviceShellEvent,
    ShellFailure,
>)
    ensures
        is_shell_event(command, payload, raw@, event),
{
    match command {
        Command::Data => match payload {
            ShellPayload::Packet(packet) => Ok(DeviceShellEvent::Packet(packet)),
            ShellPayload::Malformed(reason) => {
                let error = ProviderError::new(reason.as_str());
                Err(ShellFailure { reset: Some(reason), error })
            },
        },
        Command::Close => Ok(DeviceShellEvent::Closed),
        Command::Reset => {
            let message = concat("device reset shell stream: ", to_lossy_text(raw).as_str());
            Err(ShellFailure { reset: None, error: ProviderError::new(message.as_str()) })
        },
        _ => {
            let mut message = concat("unexpected ", name_of_command(command));
            message.append(" on shell stream");
            Err(ShellFailure { reset: None, error: ProviderError::new(message.as_str()) })
        },
    }
}

/// A device is found by its serial: the one that is found has it, and where none is
/// found no device has it.
pub proof fn devices_are_found_by_their_serial(
    devices: Seq<ConnectedDeviceView>,
    serial: Seq<char>,
)
    ensures
        match lookup(devices, serial) {
            Some(device) => device.summary.serial == serial && devices.contains(device),
            None => forall|i: int|
                0 <= i < devices.len() ==> (#[trigger] devices[i]).summary.serial != serial,
        },
    decreases devices.len(),
{
    if devices.len() > 0 && devices[0].summary.serial != serial {
        let rest = devices.skip(1);
        devices_are_found_by_their_serial(rest, serial);
        match lookup(devices, serial) {
            Some(device) => {
                let i = choose|i: int| 0 <= i < rest.len() && rest[i] == device;
                assert(devices[i + 1] == device);
            },
            None => {
                assert forall|i: int| 0 <= i < devices.len() implies (
                #[trigger] devices[i]).summary.serial != serial by {
                    if i > 0 {
                        assert(rest[i - 1] == devices[i]);
                    }
                }
            },
        }
    } else if devices.len() > 0 {
        assert(devices[0] == lookup(devices, serial)->0);
    }
}

/// What is asked of a device is the request itself, of the device that it names: no
/// session is used for another device, and no request becomes another one. Without
/// that device nothing is sent; a ping and a command then have no answer, and
/// everything else says which device is missing.
pub proof fn requests_go_unchanged_to_their_device(
    devices: Seq<ConnectedDeviceView>,
    operation: DeviceOperationView,
)
    ensures
        ({
            let request = planned(devices, operation);
            let serial = provider::device_asked(operation)->0;
            &&& request matches Ok(SessionRequestView::Call(sent)) ==> sent == operation
            &&& request matches Ok(SessionRequestView::Transfer(sent)) ==> sent == operation
            &&& request matches Ok(SessionRequestView::Ping(asked)) ==> operation
                == DeviceOperationView::Ping(asked)
            &&& request matches Ok(SessionRequestView::Install(params)) ==> {
                &&& operation is AppInstall
                &&& operation->AppInstall_0 == params
            }
            &&& request is Ok && !(request->Ok_0 is Answered) ==> exists|i: int|
                0 <= i < devices.len() && (#[trigger] devices[i]).summary.serial == serial
            &&& (forall|i: int|
                0 <= i < devices.len() ==> (#[trigger] devices[i]).summary.serial != serial)
                ==> match operation {
                DeviceOperationView::List => request == Ok::<_, RpcErrorView>(
                    SessionRequestView::Answered(
                        DeviceOperationResultView::Devices(summaries(devices)),
                    ),
                ),
                DeviceOperationView::Features(_) => request == Ok::<_, RpcErrorView>(
                    SessionRequestView::Answered(DeviceOperationResultView::Features(None)),
                ),
                DeviceOperationView::Ping(_) => request == Ok::<_, RpcErrorView>(
                    SessionRequestView::Answered(DeviceOperationResultView::Ping(false)),
                ),
                DeviceOperationView::Exec(_) => request == Ok::<_, RpcErrorView>(
                    SessionRequestView::Answered(DeviceOperationResultView::Exec(None)),
                ),
                _ => request matches Err(error) && error.code == ErrorCode::DeviceNotFound
                    && error.detail == ErrorDetailView::Serial(serial),
            }
        }),
{
    if operation !is List {
        let serial = provider::device_asked(operation)->0;
        devices_are_found_by_their_serial(devices, serial);
        if let Some(device) = lookup(devices, serial) {
            let i = choose|i: int| 0 <= i < devices.len() && devices[i] == device;
            assert(devices[i].summary.serial == serial);
        }
    }
}

/// A device is asked only for what it offers: each request needs its own feature, an
/// installation also that of the upload. A device that offers everything a request
/// needs is asked, and one that does not is refused by the name of what is missing.
pub proof fn devices_are_asked_for_what_they_offer(
    devices: Seq<ConnectedDeviceView>,
    operation: DeviceOperationView,
)
    requires
        provider::device_asked(operation) is Some,
        lookup(devices, provider::device_asked(operation)->0) is Some,
    ensures
        ({
            let offered = lookup(devices, provider::device_asked(operation)->0)->0.features.features;
            let asks = planned(devices, operation) is Ok;
            &&& operation is SyncPush && asks ==> offered.contains("sync.v1"@)
            &&& operation is SyncPull && asks ==> offered.contains("sync.v1"@)
            &&& operation is SyncStatus && asks ==> offered.contains("sync.v1"@)
            &&& operation is SyncList && asks ==> offered.contains("sync.tree.v1"@)
            &&& operation is SyncMkdir && asks ==> offered.contains("sync.tree.v1"@)
            &&& operation is AppInstall && asks ==> offered.contains("app.install.v1"@)
            &&& operation is AppInstall && asks ==> offered.contains("sync.v1"@)
            &&& operation is AppStart && asks ==> offered.contains("app.start.v1"@)
            &&& operation is AppStop && asks ==> offered.contains("app.stop.v1"@)
            &&& operation is AppRestart && asks ==> offered.contains("app.restart.v1"@)
            &&& operation is AppRollback && asks ==> offered.contains("app.rollback.v1"@)
            &&& operation is AppUninstall && asks ==> offered.contains("app.uninstall.v1"@)
            &&& operation is AppList && asks ==> offered.contains("app.list.v1"@)
            &&& operation is AppLog && asks ==> offered.contains("app.log.v1"@)
            &&& operation is ProcessList && asks ==> offered.contains("process.list.v1"@)
            &&& operation is ProcessSignal && asks ==> offered.contains("process.signal.v1"@)
            &&& operation is LogTail && asks ==> offered.contains("log.tail.v1"@)
            &&& operation is Ping || operation is Exec || operation is Features ==> asks
            &&& planned(devices, operation) matches Err(error) ==> {
                &&& error.code == ErrorCode::FeatureUnavailable
                &&& error.detail matches ErrorDetailView::Feature { serial, feature }
                &&& Some(serial) == provider::device_asked(operation)
                &&& !offered.contains(feature)
            }
        }),
{
}

/// What the device reports is handed on, and of a failed link clients learn only that
/// it failed; no failure counts as an answer.
pub proof fn device_answers_are_handed_on(answer: SessionAnswer)
    ensures
        answered_by(answer) matches Ok(result) ==> match answer {
            SessionAnswer::Done(given) => result == given@,
            SessionAnswer::Pong => result == DeviceOperationResultView::Ping(true),
            _ => false,
        },
        answer is Done || answer is Pong ==> answered_by(answer) is Ok,
        answer matches SessionAnswer::Failed(LinkError::Remote(error)) ==> answered_by(answer)
            == Err::<DeviceOperationResultView, _>(error@),
{
}

/// A device installs what the host has verified: an application bundle, of which every
/// byte was pushed, to that device, at the place and under the digest that it is then
/// asked to install.
pub proof fn verified_bundles_are_installed(
    params: AppInstallParamsView,
    bundle: UploadBundle,
    pushed: SyncPushResultView,
    request: DeviceAppInstallParams,
)
    requires
        bundle_checked(params, bundle) is Ok,
        is_install_request(bundle_checked(params, bundle)->Ok_0, pushed, Ok(request)),
    ensures
        bundle matches UploadBundle::Verified { application, total_size, file_hash } && {
            let push = upload_push(bundle_checked(params, bundle)->Ok_0);
            &&& application
            &&& push.serial == params.serial
            &&& push.local_path == params.bundle_path
            &&& pushed.state == TransferState::Complete
            &&& pushed.accepted_offset == total_size
            &&& request.serial@ == params.serial
            &&& request.remote_path@ == push.remote_path
            &&& request.file_hash@ == file_hash@
        },
{
}

/// Bundles with different digests are uploaded to different places.
pub proof fn uploads_are_told_apart(left: BundleUploadView, right: BundleUploadView)
    requires
        upload_push(left).remote_path == upload_push(right).remote_path,
    ensures
        left.file_hash == right.file_hash,
{
    reveal_strlit("packages/kbb/");
    reveal_strlit(".kbb");
    let a = bundle_remote_path(left.file_hash);
    let b = bundle_remote_path(right.file_hash);
    assert(a.len() == 13 + left.file_hash.len() + 4);
    assert(b.len() == 13 + right.file_hash.len() + 4);
    assert(left.file_hash =~= a.subrange(13, 13int + left.file_hash.len()));
    assert(right.file_hash =~= b.subrange(13, 13int + right.file_hash.len()));
}

/// Input goes to the device and output comes from it, never the other way; a stream
/// that refuses the input is reset, and nothing is sent on it.
pub proof fn shell_packets_keep_their_direction(
    packet: ShellPacket,
    accepted: Result<(), String>,
    decision: ShellSend,
)
    requires
        is_shell_send(packet, accepted, decision),
    ensures
        decision is Send <==> {
            &&& accepted is Ok
            &&& packet is Stdin || packet is CloseStdin || packet is Resize
        },
        packet is Stdout || packet is Stderr || packet is Exit ==> decision is Refused,
        decision matches ShellSend::Refused(error) ==> error@.public_message is None,
        decision matches ShellSend::Reset(sent, error) ==> (accepted matches Err(reason) && sent@
            == reason@ && error@.message == reason@ && error@.public_message is None),
{
}

/// The packets of a shell arrive as the device sent them, and only a frame that closes
/// the stream ends it well; only what cannot be read resets it.
pub proof fn shell_packets_arrive_as_sent(
    command: Command,
    payload: ShellPayload,
    raw: Seq<u8>,
    event: Result<DeviceShellEvent, ShellFailure>,
)
    requires
        is_shell_event(command, payload, raw, event),
    ensures
        event matches Ok(DeviceShellEvent::Packet(packet)) ==> command == Command::Data && payload
            == ShellPayload::Packet(packet),
        command == Command::Data ==> (payload matches ShellPayload::Packet(packet) ==> event is Ok
            && event->Ok_0 == DeviceShellEvent::Packet(packet)),
        event matches Ok(DeviceShellEvent::Closed) <==> command == Command::Close,
        event matches Err(failure) ==> (failure.reset is Some <==> command == Command::Data),
{
}

/// A device is listed, and answers for its features, under the serial that it opened its
/// session with; it offers the features that it named, and no others.
pub proof fn devices_keep_to_their_opening_message(
    device: ConnectedDeviceView,
    hello: DeviceHelloView,
    transport: Seq<char>,
)
    requires
        introduced_by(device, hello, transport),
    ensures
        device.summary.serial == hello.serial,
        device.features.serial == device.summary.serial,
        device.summary.model == hello.model,
        device.summary.state == DeviceState::Online,
        device.summary.transport == transport,
        device.features.protocol_version == hello.protocol_version,
        forall|feature: Seq<char>| #[trigger]
            device.features.features.contains(feature) <==> hello.features.contains(feature),
{
}

} // verus!
