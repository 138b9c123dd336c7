//! Well-known locations shared by convention between the application and the helper
//! daemon.
use vstd::prelude::*;

verus! {

/// Where the install script places the helper daemon's binary.
pub const HELPER_BINARY: &'static str = "/usr/local/bin/AlarmMasterWakeHelper";

/// The service descriptor that registers the daemon with launchd.
pub const HELPER_PLIST: &'static str = "/Library/LaunchDaemons/com.alarmmaster.wake-helper.plist";

/// The identifier under which launchd lists the daemon.
pub const HELPER_SERVICE_ID: &'static str = "com.alarmmaster.wake-helper";

/// The directory that both the user and the daemon read and write.
pub const SHARED_DIR: &'static str = "/Users/Shared/AlarmMaster";

/// The persisted wake schedule.
pub const SCHEDULE_FILE: &'static str = "/Users/Shared/AlarmMaster/schedule.json";

/// The daemon's append-only log.
pub const HELPER_LOG: &'static str = "/Users/Shared/AlarmMaster/helper.log";

/// The directory of the bundled helper assets, under the application's resources.
pub const HELPERS_SUBDIR: &'static str = "helpers";

/// The bundled install script, in the helpers directory.
pub const INSTALL_SCRIPT: &'static str = "install.sh";

/// The bundled uninstall script, in the helpers directory.
pub const UNINSTALL_SCRIPT: &'static str = "uninstall.sh";

} // verus!
