//! The methods of the host service, and the notifications on its streams.

use crate::text::same_text;
use vstd::prelude::*;

verus! {

/// A method that a client can call, or a notification.
#[derive(Clone, Copy, Debug, PartialEq, Eq, Structural)]
pub enum Method {
    ServerPing,
    ServerVersion,
    ServerStatus,
    ServerStop,
    DeviceList,
    DeviceFeatures,
    DevicePing,
    ExecRun,
    SyncPush,
    SyncPull,
    SyncStatus,
    SyncList,
    SyncMkdir,
    AppInstall,
    AppStart,
    AppStop,
    AppRestart,
    AppRollback,
    AppUninstall,
    AppList,
    AppLog,
    ProcessList,
    ProcessSignal,
    LogTail,
    SyncPushStream,
    SyncPullStream,
    SyncCancel,
    SyncProgress,
    ShellOpen,
    StreamWrite,
    StreamResize,
    StreamCloseInput,
    StreamClose,
    StreamData,
    StreamExit,
    StreamClosed,
    StreamCredit,
}

/// The name of a method.
pub open spec fn name_of(method: Method) -> Seq<char> {
    match method {
        Method::ServerPing => "v1.server.ping"@,
        Method::ServerVersion => "v1.server.version"@,
        Method::ServerStatus => "v1.server.status"@,
        Method::ServerStop => "v1.server.stop"@,
        Method::DeviceList => "v1.device.list"@,
        Method::DeviceFeatures => "v1.device.features"@,
        Method::DevicePing => "v1.device.ping"@,
        Method::ExecRun => "v1.exec.run"@,
        Method::SyncPush => "v1.sync.push"@,
        Method::SyncPull => "v1.sync.pull"@,
        Method::SyncStatus => "v1.sync.status"@,
        Method::SyncList => "v1.sync.list"@,
        Method::SyncMkdir => "v1.sync.mkdir"@,
        Method::AppInstall => "v1.app.install"@,
        Method::AppStart => "v1.app.start"@,
        Method::AppStop => "v1.app.stop"@,
        Method::AppRestart => "v1.app.restart"@,
        Method::AppRollback => "v1.app.rollback"@,
        Method::AppUninstall => "v1.app.uninstall"@,
        Method::AppList => "v1.app.list"@,
        Method::AppLog => "v1.app.log"@,
        Method::ProcessList => "v1.process.list"@,
        Method::ProcessSignal => "v1.process.signal"@,
        Method::LogTail => "v1.log.tail"@,
        Method::SyncPushStream => "v1.sync.push.stream"@,
        Method::SyncPullStream => "v1.sync.pull.stream"@,
        Method::SyncCancel => "v1.sync.cancel"@,
        Method::SyncProgress => "v1.sync.progress"@,
        Method::ShellOpen => "v1.shell.open"@,
        Method::StreamWrite => "v1.stream.write"@,
        Method::StreamResize => "v1.stream.resize"@,
        Method::StreamCloseInput => "v1.stream.close_input"@,
        Method::StreamClose => "v1.stream.close"@,
        Method::StreamData => "v1.stream.data"@,
        Method::StreamExit => "v1.stream.exit"@,
        Method::StreamClosed => "v1.stream.closed"@,
        Method::StreamCredit => "v1.stream.credit"@,
    }
}

/// The method with a name.
pub open spec fn method_named(name: Seq<char>) -> Option<Method> {
    if name == "v1.server.ping"@ {
        Some(Method::ServerPing)
    } else if name == "v1.server.version"@ {
        Some(Method::ServerVersion)
    } else if name == "v1.server.status"@ {
        Some(Method::ServerStatus)
    } else if name == "v1.server.stop"@ {
        Some(Method::ServerStop)
    } else if name == "v1.device.list"@ {
        Some(Method::DeviceList)
    } else if name == "v1.device.features"@ {
        Some(Method::DeviceFeatures)
    } else if name == "v1.device.ping"@ {
        Some(Method::DevicePing)
    } else if name == "v1.exec.run"@ {
        Some(Method::ExecRun)
    } else if name == "v1.sync.push"@ {
        Some(Method::SyncPush)
    } else if name == "v1.sync.pull"@ {
        Some(Method::SyncPull)
    } else if name == "v1.sync.status"@ {
        Some(Method::SyncStatus)
    } else if name == "v1.sync.list"@ {
        Some(Method::SyncList)
    } else if name == "v1.sync.mkdir"@ {
        Some(Method::SyncMkdir)
    } else if name == "v1.app.install"@ {
        Some(Method::AppInstall)
    } else if name == "v1.app.start"@ {
        Some(Method::AppStart)
    } else if name == "v1.app.stop"@ {
        Some(Method::AppStop)
    } else if name == "v1.app.restart"@ {
        Some(Method::AppRestart)
    } else if name == "v1.app.rollback"@ {
        Some(Method::AppRollback)
    } else if name == "v1.app.uninstall"@ {
        Some(Method::AppUninstall)
    } else if name == "v1.app.list"@ {
        Some(Method::AppList)
    } else if name == "v1.app.log"@ {
        Some(Method::AppLog)
    } else if name == "v1.process.list"@ {
        Some(Method::ProcessList)
    } else if name == "v1.process.signal"@ {
        Some(Method::ProcessSignal)
    } else if name == "v1.log.tail"@ {
        Some(Method::LogTail)
    } else if name == "v1.sync.push.stream"@ {
        Some(Method::SyncPushStream)
    } else if name == "v1.sync.pull.stream"@ {
        Some(Method::SyncPullStream)
    } else if name == "v1.sync.cancel"@ {
        Some(Method::SyncCancel)
    } else if name == "v1.sync.progress"@ {
        Some(Method::SyncProgress)
    } else if name == "v1.shell.open"@ {
        Some(Method::ShellOpen)
    } else if name == "v1.stream.write"@ {
        Some(Method::StreamWrite)
    } else if name == "v1.stream.resize"@ {
        Some(Method::StreamResize)
    } else if name == "v1.stream.close_input"@ {
        Some(Method::StreamCloseInput)
    } else if name == "v1.stream.close"@ {
        Some(Method::StreamClose)
    } else if name == "v1.stream.data"@ {
        Some(Method::StreamData)
    } else if name == "v1.stream.exit"@ {
        Some(Method::StreamExit)
    } else if name == "v1.stream.closed"@ {
        Some(Method::StreamClosed)
    } else if name == "v1.stream.credit"@ {
        Some(Method::StreamCredit)
    } else {
        None
    }
}

impl Method {
    /// The name of this method.
    pub fn name(self) -> (name: &'static str)
        ensures
            name@ == name_of(self),
    {
        match self {
            Method::ServerPing => "v1.server.ping",
            Method::ServerVersion => "v1.server.version",
            Method::ServerStatus => "v1.server.status",
            Method::ServerStop => "v1.server.stop",
            Method::DeviceList => "v1.device.list",
            Method::DeviceFeatures => "v1.device.features",
            Method::DevicePing => "v1.device.ping",
            Method::ExecRun => "v1.exec.run",
            Method::SyncPush => "v1.sync.push",
            Method::SyncPull => "v1.sync.pull",
            Method::SyncStatus => "v1.sync.status",
            Method::SyncList => "v1.sync.list",
            Method::SyncMkdir => "v1.sync.mkdir",
            Method::AppInstall => "v1.app.install",
            Method::AppStart => "v1.app.start",
            Method::AppStop => "v1.app.stop",
            Method::AppRestart => "v1.app.restart",
            Method::AppRollback => "v1.app.rollback",
            Method::AppUninstall => "v1.app.uninstall",
            Method::AppList => "v1.app.list",
            Method::AppLog => "v1.app.log",
            Method::ProcessList => "v1.process.list",
            Method::ProcessSignal => "v1.process.signal",
            Method::LogTail => "v1.log.tail",
            Method::SyncPushStream => "v1.sync.push.stream",
            Method::SyncPullStream => "v1.sync.pull.stream",
            Method::SyncCancel => "v1.sync.cancel",
            Method::SyncProgress => "v1.sync.progress",
            Method::ShellOpen => "v1.shell.open",
            Method::StreamWrite => "v1.stream.write",
            Method::StreamResize => "v1.stream.resize",
            Method::StreamCloseInput => "v1.stream.close_input",
            Method::StreamClose => "v1.stream.close",
            Method::StreamData => "v1.stream.data",
            Method::StreamExit => "v1.stream.exit",
            Method::StreamClosed => "v1.stream.closed",
            Method::StreamCredit => "v1.stream.credit",
        }
    }

    /// The method with a name.
    pub fn parse(name: &str) -> (method: Option<Method>)
        ensures
            method == method_named(name@),
    {
        if same_text(name, "v1.server.ping") {
            Some(Method::ServerPing)
        } else if same_text(name, "v1.server.version") {
            Some(Method::ServerVersion)
        } else if same_text(name, "v1.server.status") {
            Some(Method::ServerStatus)
        } else if same_text(name, "v1.server.stop") {
            Some(Method::ServerStop)
        } else if same_text(name, "v1.device.list") {
            Some(Method::DeviceList)
        } else if same_text(name, "v1.device.features") {
            Some(Method::DeviceFeatures)
        } else if same_text(name, "v1.device.ping") {
            Some(Method::DevicePing)
        } else if same_text(name, "v1.exec.run") {
            Some(Method::ExecRun)
        } else if same_text(name, "v1.sync.push") {
            Some(Method::SyncPush)
        } else if same_text(name, "v1.sync.pull") {
            Some(Method::SyncPull)
        } else if same_text(name, "v1.sync.status") {
            Some(Method::SyncStatus)
        } else if same_text(name, "v1.sync.list") {
            Some(Method::SyncList)
        } else if same_text(name, "v1.sync.mkdir") {
            Some(Method::SyncMkdir)
        } else if same_text(name, "v1.app.install") {
            Some(Method::AppInstall)
        } else if same_text(name, "v1.app.start") {
            Some(Method::AppStart)
        } else if same_text(name, "v1.app.stop") {
            Some(Method::AppStop)
        } else if same_text(name, "v1.app.restart") {
            Some(Method::AppRestart)
        } else if same_text(name, "v1.app.rollback") {
            Some(Method::AppRollback)
        } else if same_text(name, "v1.app.uninstall") {
            Some(Method::AppUninstall)
        } else if same_text(name, "v1.app.list") {
            Some(Method::AppList)
        } else if same_text(name, "v1.app.log") {
            Some(Method::AppLog)
        } else if same_text(name, "v1.process.list") {
            Some(Method::ProcessList)
        } else if same_text(name, "v1.process.signal") {
            Some(Method::ProcessSignal)
        } else if same_text(name, "v1.log.tail") {
            Some(Method::LogTail)
        } else if same_text(name, "v1.sync.push.stream") {
            Some(Method::SyncPushStream)
        } else if same_text(name, "v1.sync.pull.stream") {
            Some(Method::SyncPullStream)
        } else if same_text(name, "v1.sync.cancel") {
            Some(Method::SyncCancel)
        } else if same_text(name, "v1.sync.progress") {
            Some(Method::SyncProgress)
        } else if same_text(name, "v1.shell.open") {
            Some(Method::ShellOpen)
        } else if same_text(name, "v1.stream.write") {
            Some(Method::StreamWrite)
        } else if same_text(name, "v1.stream.resize") {
            Some(Method::StreamResize)
        } else if same_text(name, "v1.stream.close_input") {
            Some(Method::StreamCloseInput)
        } else if same_text(name, "v1.stream.close") {
            Some(Method::StreamClose)
        } else if same_text(name, "v1.stream.data") {
            Some(Method::StreamData)
        } else if same_text(name, "v1.stream.exit") {
            Some(Method::StreamExit)
        } else if same_text(name, "v1.stream.closed") {
            Some(Method::StreamClosed)
        } else if same_text(name, "v1.stream.credit") {
            Some(Method::StreamCredit)
        } else {
            None
        }
    }
}

/// Every method is found by its name.
pub proof fn names_are_distinct(method: Method)
    ensures
        method_named(name_of(method)) == Some(method),
{
    reveal_strlit("v1.server.ping");
    reveal_strlit("v1.server.version");
    reveal_strlit("v1.server.status");
    reveal_strlit("v1.server.stop");
    reveal_strlit("v1.device.list");
    reveal_strlit("v1.device.features");
    reveal_strlit("v1.device.ping");
    reveal_strlit("v1.exec.run");
    reveal_strlit("v1.sync.push");
    reveal_strlit("v1.sync.pull");
    reveal_strlit("v1.sync.status");
    reveal_strlit("v1.sync.list");
    reveal_strlit("v1.sync.mkdir");
    reveal_strlit("v1.app.install");
    reveal_strlit("v1.app.start");
    reveal_strlit("v1.app.stop");
    reveal_strlit("v1.app.restart");
    reveal_strlit("v1.app.rollback");
    reveal_strlit("v1.app.uninstall");
    reveal_strlit("v1.app.list");
    reveal_strlit("v1.app.log");
    reveal_strlit("v1.process.list");
    reveal_strlit("v1.process.signal");
    reveal_strlit("v1.log.tail");
    reveal_strlit("v1.sync.push.stream");
    reveal_strlit("v1.sync.pull.stream");
    reveal_strlit("v1.sync.cancel");
    reveal_strlit("v1.sync.progress");
    reveal_strlit("v1.shell.open");
    reveal_strlit("v1.stream.write");
    reveal_strlit("v1.stream.resize");
    reveal_strlit("v1.stream.close_input");
    reveal_strlit("v1.stream.close");
    reveal_strlit("v1.stream.data");
    reveal_strlit("v1.stream.exit");
    reveal_strlit("v1.stream.closed");
    reveal_strlit("v1.stream.credit");
    assert("v1.server.ping"@.len() == 14);
    assert("v1.server.version"@.len() == 17);
    assert("v1.server.status"@.len() == 16);
    assert("v1.server.stop"@.len() == 14);
    assert("v1.device.list"@.len() == 14);
    assert("v1.device.features"@.len() == 18);
    assert("v1.device.ping"@.len() == 14);
    assert("v1.exec.run"@.len() == 11);
    assert("v1.sync.push"@.len() == 12);
    assert("v1.sync.pull"@.len() == 12);
    assert("v1.sync.status"@.len() == 14);
    assert("v1.sync.list"@.len() == 12);
    assert("v1.sync.mkdir"@.len() == 13);
    assert("v1.app.install"@.len() == 14);
    assert("v1.app.start"@.len() == 12);
    assert("v1.app.stop"@.len() == 11);
    assert("v1.app.restart"@.len() == 14);
    assert("v1.app.rollback"@.len() == 15);
    assert("v1.app.uninstall"@.len() == 16);
    assert("v1.app.list"@.len() == 11);
    assert("v1.app.log"@.len() == 10);
    assert("v1.process.list"@.len() == 15);
    assert("v1.process.signal"@.len() == 17);
    assert("v1.log.tail"@.len() == 11);
    assert("v1.sync.push.stream"@.len() == 19);
    assert("v1.sync.pull.stream"@.len() == 19);
    assert("v1.sync.cancel"@.len() == 14);
    assert("v1.sync.progress"@.len() == 16);
    assert("v1.shell.open"@.len() == 13);
    assert("v1.stream.write"@.len() == 15);
    assert("v1.stream.resize"@.len() == 16);
    assert("v1.stream.close_input"@.len() == 21);
    assert("v1.stream.close"@.len() == 15);
    assert("v1.stream.data"@.len() == 14);
    assert("v1.stream.exit"@.len() == 14);
    assert("v1.stream.closed"@.len() == 16);
    assert("v1.stream.credit"@.len() == 16);
    assert("v1.server.ping"@[10] != "v1.server.stop"@[10]);
    assert("v1.server.ping"@[3] != "v1.device.list"@[3]);
    assert("v1.server.ping"@[3] != "v1.device.ping"@[3]);
    assert("v1.server.ping"@[4] != "v1.sync.status"@[4]);
    assert("v1.server.ping"@[3] != "v1.app.install"@[3]);
    assert("v1.server.ping"@[3] != "v1.app.restart"@[3]);
    assert("v1.server.ping"@[4] != "v1.sync.cancel"@[4]);
    assert("v1.server.ping"@[4] != "v1.stream.data"@[4]);
    assert("v1.server.ping"@[4] != "v1.stream.exit"@[4]);
    assert("v1.server.stop"@[3] != "v1.device.list"@[3]);
    assert("v1.server.stop"@[3] != "v1.device.ping"@[3]);
    assert("v1.server.stop"@[4] != "v1.sync.status"@[4]);
    assert("v1.server.stop"@[3] != "v1.app.install"@[3]);
    assert("v1.server.stop"@[3] != "v1.app.restart"@[3]);
    assert("v1.server.stop"@[4] != "v1.sync.cancel"@[4]);
    assert("v1.server.stop"@[4] != "v1.stream.data"@[4]);
    assert("v1.server.stop"@[4] != "v1.stream.exit"@[4]);
    assert("v1.device.list"@[10] != "v1.device.ping"@[10]);
    assert("v1.device.list"@[3] != "v1.sync.status"@[3]);
    assert("v1.device.list"@[3] != "v1.app.install"@[3]);
    assert("v1.device.list"@[3] != "v1.app.restart"@[3]);
    assert("v1.device.list"@[3] != "v1.sync.cancel"@[3]);
    assert("v1.device.list"@[3] != "v1.stream.data"@[3]);
    assert("v1.device.list"@[3] != "v1.stream.exit"@[3]);
    assert("v1.device.ping"@[3] != "v1.sync.status"@[3]);
    assert("v1.device.ping"@[3] != "v1.app.install"@[3]);
    assert("v1.device.ping"@[3] != "v1.app.restart"@[3]);
    assert("v1.device.ping"@[3] != "v1.sync.cancel"@[3]);
    assert("v1.device.ping"@[3] != "v1.stream.data"@[3]);
    assert("v1.device.ping"@[3] != "v1.stream.exit"@[3]);
    assert("v1.sync.status"@[3] != "v1.app.install"@[3]);
    assert("v1.sync.status"@[3] != "v1.app.restart"@[3]);
    assert("v1.sync.status"@[8] != "v1.sync.cancel"@[8]);
    assert("v1.sync.status"@[4] != "v1.stream.data"@[4]);
    assert("v1.sync.status"@[4] != "v1.stream.exit"@[4]);
    assert("v1.app.install"@[7] != "v1.app.restart"@[7]);
    assert("v1.app.install"@[3] != "v1.sync.cancel"@[3]);
    assert("v1.app.install"@[3] != "v1.stream.data"@[3]);
    assert("v1.app.install"@[3] != "v1.stream.exit"@[3]);
    assert("v1.app.restart"@[3] != "v1.sync.cancel"@[3]);
    assert("v1.app.restart"@[3] != "v1.stream.data"@[3]);
    assert("v1.app.restart"@[3] != "v1.stream.exit"@[3]);
    assert("v1.sync.cancel"@[4] != "v1.stream.data"@[4]);
    assert("v1.sync.cancel"@[4] != "v1.stream.exit"@[4]);
    assert("v1.stream.data"@[10] != "v1.stream.exit"@[10]);
    assert("v1.server.version"@[3] != "v1.process.signal"@[3]);
    assert("v1.server.status"@[3] != "v1.app.uninstall"@[3]);
    assert("v1.server.status"@[4] != "v1.sync.progress"@[4]);
    assert("v1.server.status"@[4] != "v1.stream.resize"@[4]);
    assert("v1.server.status"@[4] != "v1.stream.closed"@[4]);
    assert("v1.server.status"@[4] != "v1.stream.credit"@[4]);
    assert("v1.app.uninstall"@[3] != "v1.sync.progress"@[3]);
    assert("v1.app.uninstall"@[3] != "v1.stream.resize"@[3]);
    assert("v1.app.uninstall"@[3] != "v1.stream.closed"@[3]);
    assert("v1.app.uninstall"@[3] != "v1.stream.credit"@[3]);
    assert("v1.sync.progress"@[4] != "v1.stream.resize"@[4]);
    assert("v1.sync.progress"@[4] != "v1.stream.closed"@[4]);
    assert("v1.sync.progress"@[4] != "v1.stream.credit"@[4]);
    assert("v1.stream.resize"@[10] != "v1.stream.closed"@[10]);
    assert("v1.stream.resize"@[10] != "v1.stream.credit"@[10]);
    assert("v1.stream.closed"@[11] != "v1.stream.credit"@[11]);
    assert("v1.exec.run"@[3] != "v1.app.stop"@[3]);
    assert("v1.exec.run"@[3] != "v1.app.list"@[3]);
    assert("v1.exec.run"@[3] != "v1.log.tail"@[3]);
    assert("v1.app.stop"@[7] != "v1.app.list"@[7]);
    assert("v1.app.stop"@[3] != "v1.log.tail"@[3]);
    assert("v1.app.list"@[3] != "v1.log.tail"@[3]);
    assert("v1.sync.push"@[10] != "v1.sync.pull"@[10]);
    assert("v1.sync.push"@[8] != "v1.sync.list"@[8]);
    assert("v1.sync.push"@[3] != "v1.app.start"@[3]);
    assert("v1.sync.pull"@[8] != "v1.sync.list"@[8]);
    assert("v1.sync.pull"@[3] != "v1.app.start"@[3]);
    assert("v1.sync.list"@[3] != "v1.app.start"@[3]);
    assert("v1.sync.mkdir"@[4] != "v1.shell.open"@[4]);
    assert("v1.app.rollback"@[3] != "v1.process.list"@[3]);
    assert("v1.app.rollback"@[3] != "v1.stream.write"@[3]);
    assert("v1.app.rollback"@[3] != "v1.stream.close"@[3]);
    assert("v1.process.list"@[3] != "v1.stream.write"@[3]);
    assert("v1.process.list"@[3] != "v1.stream.close"@[3]);
    assert("v1.stream.write"@[10] != "v1.stream.close"@[10]);
    assert("v1.sync.push.stream"@[10] != "v1.sync.pull.stream"@[10]);
}

} // verus!
