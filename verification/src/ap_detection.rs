//! Detection of the elevation environment: whether Administrator Protection
//! is on, whether Windows Hello can be used, and what that means for `sudo`.

use vstd::prelude::*;
use vstd::string::*;
use crate::text::{decimal, push_decimal};

verus! {

/// The elevation environments that `sudo` can meet.
#[derive(Debug, Clone, Copy, PartialEq, Eq, Structural)]
pub enum ElevationEnvironment {
    /// Standard UAC with the split-token model.
    StandardUAC,
    /// Administrator Protection with Windows Hello available.
    AdminProtectionWithHello,
    /// Administrator Protection without Windows Hello.
    AdminProtectionWithoutHello,
    /// The user is not an administrator.
    NoAdminPrivileges,
    /// The environment could not be determined.
    Unknown,
}

/// Result of checking Windows Hello availability.
#[derive(Debug, Clone, Copy, PartialEq, Eq, Structural)]
pub enum HelloAvailability {
    Available,
    NotAvailable,
    DeviceNotCapable,
    DeviceBusy,
    Unknown,
}

/// What the system offers for elevation.
#[derive(Debug, Clone)]
pub struct ElevationCapabilities {
    pub environment: ElevationEnvironment,
    pub ap_enabled: bool,
    pub hello_available: HelloAvailability,
    pub user_is_admin: bool,
    pub broker_service_available: bool,
    pub windows_version: String,
}

/// The environment that the probes describe: a non-administrator first, then
/// UAC when Administrator Protection is off, then by Hello's availability.
pub open spec fn environment_of(ap_enabled: bool, hello: HelloAvailability, user_is_admin: bool) -> ElevationEnvironment {
    if !user_is_admin {
        ElevationEnvironment::NoAdminPrivileges
    } else if !ap_enabled {
        ElevationEnvironment::StandardUAC
    } else {
        match hello {
            HelloAvailability::Available => ElevationEnvironment::AdminProtectionWithHello,
            HelloAvailability::Unknown => ElevationEnvironment::Unknown,
            _ => ElevationEnvironment::AdminProtectionWithoutHello,
        }
    }
}

/// Determines the elevation environment from the probes.
pub fn determine_environment(ap_enabled: bool, hello_available: HelloAvailability, user_is_admin: bool) -> (e: ElevationEnvironment)
    ensures
        e == environment_of(ap_enabled, hello_available, user_is_admin),
{
    if !user_is_admin {
        return ElevationEnvironment::NoAdminPrivileges;
    }
    if !ap_enabled {
        return ElevationEnvironment::StandardUAC;
    }
    match hello_available {
        HelloAvailability::Available => ElevationEnvironment::AdminProtectionWithHello,
        HelloAvailability::NotAvailable | HelloAvailability::DeviceNotCapable | HelloAvailability::DeviceBusy => ElevationEnvironment::AdminProtectionWithoutHello,
        HelloAvailability::Unknown => ElevationEnvironment::Unknown,
    }
}

/// Administrator Protection is on when both policy values could be read and
/// `FilterAdministratorToken` and `EnableLUA` are both 1. `None` stands for
/// a value (or the policy key) that could not be read.
pub fn admin_protection_from_policy(filter_administrator_token: Option<u32>, enable_lua: Option<u32>) -> (b: bool)
    ensures
        b == (filter_administrator_token == Some(1u32) && enable_lua == Some(1u32)),
{
    match (filter_administrator_token, enable_lua) {
        (Some(f), Some(l)) => f == 1 && l == 1,
        _ => false,
    }
}

/// Hello's availability from whether the availability query could be
/// started: its answer is not awaited, so a started query gives `Unknown`.
pub fn hello_availability_from_query(query_started: bool) -> (h: HelloAvailability)
    ensures
        h == (if query_started { HelloAvailability::Unknown } else { HelloAvailability::NotAvailable }),
{
    if query_started {
        HelloAvailability::Unknown
    } else {
        HelloAvailability::NotAvailable
    }
}

/// The text of a Windows version: `major.minor.build`, or `Unknown` when it
/// could not be read.
pub open spec fn version_text(v: Option<(u32, u32, u32)>) -> Seq<char> {
    match v {
        Some((major, minor, build)) => decimal(major as nat) + "."@ + decimal(minor as nat) + "."@
            + decimal(build as nat),
        None => "Unknown"@,
    }
}

/// Renders a Windows version.
pub fn format_windows_version(v: Option<(u32, u32, u32)>) -> (s: String)
    ensures
        s@ == version_text(v),
{
    match v {
        Some((major, minor, build)) => {
            let mut s = String::new();
            push_decimal(&mut s, major as u64);
            s.append(".");
            push_decimal(&mut s, minor as u64);
            s.append(".");
            push_decimal(&mut s, build as u64);
            assert(s@ =~= version_text(v));
            s
        },
        None => String::from_str("Unknown"),
    }
}

/// Whether elevation is possible in these circumstances.
pub open spec fn can_elevate_with(c: ElevationCapabilities) -> bool {
    match c.environment {
        ElevationEnvironment::StandardUAC => c.user_is_admin,
        ElevationEnvironment::AdminProtectionWithHello => c.user_is_admin && c.broker_service_available,
        _ => false,
    }
}

/// The message that explains why elevation is not possible; `None` exactly
/// when it is possible. A refusal that no other message explains is a user
/// outside the Administrators group.
pub open spec fn elevation_error_text(c: ElevationCapabilities) -> Option<Seq<char>> {
    if can_elevate_with(c) {
        None
    } else {
        match c.environment {
            ElevationEnvironment::NoAdminPrivileges => Some(
                "You must be a member of the Administrators group to use sudo."@,
            ),
            ElevationEnvironment::AdminProtectionWithoutHello => Some(
                "\u{274c} Administrator Protection requires Windows Hello\n\nTo use sudo with Administrator Protection:\n1. Open Settings \u{2192} Accounts \u{2192} Sign-in options\n2. Set up Windows Hello (PIN, Face, or Fingerprint)\n3. Try sudo again\n\nAlternative: Disable Administrator Protection in Windows Security settings"@,
            ),
            ElevationEnvironment::AdminProtectionWithHello => if !c.broker_service_available {
                Some(
                    "\u{26a0}\u{fe0f}  Administrator Protection is enabled but the elevation broker service is not available.\n\nTo fix this:\n1. Run: sc start SudoElevationBroker\n2. Or reinstall sudo: winget install Microsoft.Sudo\n\nIf the problem persists, check Windows Event Logs for errors."@,
                )
            } else {
                Some("You must be a member of the Administrators group to use sudo."@)
            },
            ElevationEnvironment::Unknown => Some(
                "Unable to determine elevation capabilities. Please check system configuration."@,
            ),
            ElevationEnvironment::StandardUAC => Some(
                "You must be a member of the Administrators group to use sudo."@,
            ),
        }
    }
}

impl ElevationCapabilities {
    /// The capabilities that the system probes report.
    pub fn from_probes(
        ap_enabled: bool,
        hello_available: HelloAvailability,
        user_is_admin: bool,
        broker_service_available: bool,
        windows_version: String,
    ) -> (c: Self)
        ensures
            c.environment == environment_of(ap_enabled, hello_available, user_is_admin),
            c.ap_enabled == ap_enabled,
            c.hello_available == hello_available,
            c.user_is_admin == user_is_admin,
            c.broker_service_available == broker_service_available,
            c.windows_version == windows_version,
    {
        let environment = determine_environment(ap_enabled, hello_available, user_is_admin);
        ElevationCapabilities {
            environment,
            ap_enabled,
            hello_available,
            user_is_admin,
            broker_service_available,
            windows_version,
        }
    }

    /// Whether the system can perform elevation.
    pub fn can_elevate(&self) -> (b: bool)
        ensures
            b == can_elevate_with(*self),
    {
        match self.environment {
            ElevationEnvironment::StandardUAC => self.user_is_admin,
            ElevationEnvironment::AdminProtectionWithHello => self.user_is_admin && self.broker_service_available,
            ElevationEnvironment::AdminProtectionWithoutHello => false,
            ElevationEnvironment::NoAdminPrivileges => false,
            ElevationEnvironment::Unknown => false,
        }
    }

    /// A user-facing message when elevation is not possible.
    pub fn get_elevation_error_message(&self) -> (m: Option<String>)
        ensures
            match m {
                Some(s) => elevation_error_text(*self) == Some(s@),
                None => elevation_error_text(*self) is None,
            },
    {
        if self.can_elevate() {
            return None;
        }
        match self.environment {
            ElevationEnvironment::NoAdminPrivileges => Some(String::from_str("You must be a member of the Administrators group to use sudo.")),
            ElevationEnvironment::AdminProtectionWithoutHello => Some(String::from_str(
                "\u{274c} Administrator Protection requires Windows Hello\n\nTo use sudo with Administrator Protection:\n1. Open Settings \u{2192} Accounts \u{2192} Sign-in options\n2. Set up Windows Hello (PIN, Face, or Fingerprint)\n3. Try sudo again\n\nAlternative: Disable Administrator Protection in Windows Security settings",
            )),
            ElevationEnvironment::AdminProtectionWithHello => {
                if !self.broker_service_available {
                    Some(String::from_str(
                        "\u{26a0}\u{fe0f}  Administrator Protection is enabled but the elevation broker service is not available.\n\nTo fix this:\n1. Run: sc start SudoElevationBroker\n2. Or reinstall sudo: winget install Microsoft.Sudo\n\nIf the problem persists, check Windows Event Logs for errors.",
                    ))
                } else {
                    Some(String::from_str("You must be a member of the Administrators group to use sudo."))
                }
            },
            ElevationEnvironment::Unknown => Some(String::from_str("Unable to determine elevation capabilities. Please check system configuration.")),
            ElevationEnvironment::StandardUAC => Some(String::from_str("You must be a member of the Administrators group to use sudo.")),
        }
    }
}

/// Elevation is only ever possible for an administrator, and there is an
/// error message exactly when elevation is not possible.
pub proof fn lemma_elevation_needs_admin(c: ElevationCapabilities)
    ensures
        can_elevate_with(c) ==> c.user_is_admin,
        (elevation_error_text(c) is None) <==> can_elevate_with(c),
{
}


/// Who can elevate, in terms of the system probes: an administrator, when
/// Administrator Protection is off, or when it is on, Windows Hello is known
/// to be available and the broker service runs. In any environment other
/// than standard UAC or Administrator Protection with Hello (in particular
/// an undetermined one), elevation is refused.
pub proof fn lemma_who_can_elevate(c: ElevationCapabilities)
    ensures
        can_elevate_with(c) ==> c.user_is_admin && (c.environment == ElevationEnvironment::StandardUAC || (
        c.environment == ElevationEnvironment::AdminProtectionWithHello && c.broker_service_available)),
        can_elevate_with(c) ==> c.environment != ElevationEnvironment::Unknown,
        c.environment == environment_of(c.ap_enabled, c.hello_available, c.user_is_admin) ==> (can_elevate_with(c)
            <==> (c.user_is_admin && (!c.ap_enabled || (c.hello_available == HelloAvailability::Available
            && c.broker_service_available)))),
{
}

} // verus!
