use sudo::ap_detection::{
    admin_protection_from_policy, determine_environment, format_windows_version,
    hello_availability_from_query, ElevationCapabilities, ElevationEnvironment, HelloAvailability,
};

fn caps(
    environment: ElevationEnvironment,
    ap_enabled: bool,
    hello_available: HelloAvailability,
    user_is_admin: bool,
    broker_service_available: bool,
    windows_version: &str,
) -> ElevationCapabilities {
    ElevationCapabilities {
        environment,
        ap_enabled,
        hello_available,
        user_is_admin,
        broker_service_available,
        windows_version: windows_version.to_string(),
    }
}

#[test]
fn test_hello_availability_values() {
    assert_eq!(HelloAvailability::Available, HelloAvailability::Available);
    assert_ne!(HelloAvailability::Available, HelloAvailability::NotAvailable);
    assert_ne!(HelloAvailability::DeviceNotCapable, HelloAvailability::DeviceBusy);
}

#[test]
fn test_elevation_environment_values() {
    assert_eq!(ElevationEnvironment::StandardUAC, ElevationEnvironment::StandardUAC);
    assert_ne!(ElevationEnvironment::StandardUAC, ElevationEnvironment::NoAdminPrivileges);
    assert_ne!(
        ElevationEnvironment::AdminProtectionWithHello,
        ElevationEnvironment::AdminProtectionWithoutHello
    );
}

#[test]
fn test_can_elevate_no_admin_privileges() {
    let caps = caps(ElevationEnvironment::NoAdminPrivileges, false, HelloAvailability::NotAvailable, false, false, "11.0.22621");
    assert!(!caps.can_elevate(), "Non-admin users cannot elevate");
}

#[test]
fn test_can_elevate_standard_uac() {
    let caps = caps(ElevationEnvironment::StandardUAC, false, HelloAvailability::NotAvailable, true, false, "10.0.19045");
    assert!(caps.can_elevate(), "Standard UAC with admin user can elevate");
}

#[test]
fn test_can_elevate_ap_with_hello() {
    let caps = caps(ElevationEnvironment::AdminProtectionWithHello, true, HelloAvailability::Available, true, true, "11.0.22621");
    assert!(caps.can_elevate(), "AP with Hello and broker can elevate");
}

#[test]
fn test_can_elevate_ap_without_broker() {
    let caps = caps(ElevationEnvironment::AdminProtectionWithHello, true, HelloAvailability::Available, true, false, "11.0.22621");
    assert!(!caps.can_elevate(), "AP without broker cannot elevate");
}

#[test]
fn test_can_elevate_ap_without_hello() {
    let caps = caps(ElevationEnvironment::AdminProtectionWithoutHello, true, HelloAvailability::NotAvailable, true, true, "11.0.22621");
    assert!(!caps.can_elevate(), "AP without Hello cannot elevate");
}

#[test]
fn test_error_message_no_admin() {
    let caps = caps(ElevationEnvironment::NoAdminPrivileges, false, HelloAvailability::NotAvailable, false, false, "11.0.22621");
    let error = caps.get_elevation_error_message();
    assert!(error.is_some());
    assert!(error.unwrap().contains("Administrators group"));
}

#[test]
fn test_error_message_ap_without_hello() {
    let caps = caps(ElevationEnvironment::AdminProtectionWithoutHello, true, HelloAvailability::NotAvailable, true, true, "11.0.22621");
    let error = caps.get_elevation_error_message();
    assert!(error.is_some());
    let msg = error.unwrap();
    assert!(msg.contains("Windows Hello"));
    assert!(msg.contains("Settings"));
}

#[test]
fn test_error_message_broker_unavailable() {
    let caps = caps(ElevationEnvironment::AdminProtectionWithHello, true, HelloAvailability::Available, true, false, "11.0.22621");
    let error = caps.get_elevation_error_message();
    assert!(error.is_some());
    let msg = error.unwrap();
    assert!(msg.contains("broker service"));
    assert!(msg.contains("SudoElevationBroker"));
}

#[test]
fn test_error_message_unknown_environment() {
    let caps = caps(ElevationEnvironment::Unknown, false, HelloAvailability::Unknown, false, false, "11.0.22621");
    let error = caps.get_elevation_error_message();
    assert!(error.is_some());
    assert!(error.unwrap().contains("Unable to determine"));
}

#[test]
fn test_no_error_when_can_elevate() {
    let caps = caps(ElevationEnvironment::StandardUAC, false, HelloAvailability::NotAvailable, true, false, "10.0.19045");
    assert!(caps.can_elevate());
    assert!(caps.get_elevation_error_message().is_none());
}

#[test]
fn test_windows_version_field() {
    let caps = caps(ElevationEnvironment::StandardUAC, false, HelloAvailability::NotAvailable, true, false, "11.0.22621");
    assert_eq!(caps.windows_version, "11.0.22621");
    assert!(!caps.windows_version.is_empty());
}

#[test]
fn test_capabilities_clone() {
    let caps = caps(ElevationEnvironment::StandardUAC, false, HelloAvailability::Available, true, false, "11.0.22621");
    let cloned = caps.clone();
    assert_eq!(caps.environment, cloned.environment);
    assert_eq!(caps.ap_enabled, cloned.ap_enabled);
    assert_eq!(caps.hello_available, cloned.hello_available);
    assert_eq!(caps.user_is_admin, cloned.user_is_admin);
    assert_eq!(caps.windows_version, cloned.windows_version);
}

#[test]
fn test_all_environment_types_covered_in_can_elevate() {
    let environments = vec![
        ElevationEnvironment::StandardUAC,
        ElevationEnvironment::AdminProtectionWithHello,
        ElevationEnvironment::AdminProtectionWithoutHello,
        ElevationEnvironment::NoAdminPrivileges,
        ElevationEnvironment::Unknown,
    ];
    for env in environments {
        let caps = caps(env, false, HelloAvailability::NotAvailable, false, false, "11.0.22621");
        let _ = caps.can_elevate();
    }
}

#[test]
fn test_all_hello_availability_values() {
    let values = vec![
        HelloAvailability::Available,
        HelloAvailability::NotAvailable,
        HelloAvailability::DeviceNotCapable,
        HelloAvailability::DeviceBusy,
        HelloAvailability::Unknown,
    ];
    for val in &values {
        let copied = *val;
        assert_eq!(*val, copied);
    }
}

#[test]
fn environment_from_probes() {
    type E = ElevationEnvironment;
    type H = HelloAvailability;
    assert_eq!(determine_environment(true, H::Available, false), E::NoAdminPrivileges);
    assert_eq!(determine_environment(false, H::Unknown, true), E::StandardUAC);
    assert_eq!(determine_environment(true, H::Available, true), E::AdminProtectionWithHello);
    assert_eq!(determine_environment(true, H::NotAvailable, true), E::AdminProtectionWithoutHello);
    assert_eq!(determine_environment(true, H::DeviceNotCapable, true), E::AdminProtectionWithoutHello);
    assert_eq!(determine_environment(true, H::DeviceBusy, true), E::AdminProtectionWithoutHello);
    assert_eq!(determine_environment(true, H::Unknown, true), E::Unknown);
}

#[test]
fn detected_capabilities_have_a_message_exactly_when_refused() {
    type H = HelloAvailability;
    for ap in [false, true] {
        for admin in [false, true] {
            for broker in [false, true] {
                for hello in [H::Available, H::NotAvailable, H::DeviceNotCapable, H::DeviceBusy, H::Unknown] {
                    let c = ElevationCapabilities::from_probes(ap, hello, admin, broker, "10.0.1".to_string());
                    assert_eq!(c.get_elevation_error_message().is_none(), c.can_elevate());
                    if c.can_elevate() {
                        assert!(c.user_is_admin);
                    }
                }
            }
        }
    }
}

#[test]
fn policy_values_decide_admin_protection() {
    assert!(admin_protection_from_policy(Some(1), Some(1)));
    assert!(!admin_protection_from_policy(Some(0), Some(1)));
    assert!(!admin_protection_from_policy(Some(1), Some(0)));
    assert!(!admin_protection_from_policy(None, Some(1)));
    assert!(!admin_protection_from_policy(Some(1), None));
    assert!(!admin_protection_from_policy(Some(2), Some(1)));
}

#[test]
fn hello_query_and_version_text() {
    assert_eq!(hello_availability_from_query(true), HelloAvailability::Unknown);
    assert_eq!(hello_availability_from_query(false), HelloAvailability::NotAvailable);
    assert_eq!(format_windows_version(Some((10, 0, 22631))), "10.0.22631");
    assert_eq!(format_windows_version(Some((0, 0, 0))), "0.0.0");
    assert_eq!(format_windows_version(None), "Unknown");
}

#[test]
fn every_refusal_has_a_message() {
    let c = caps(ElevationEnvironment::StandardUAC, false, HelloAvailability::Available, false, false, "x");
    assert!(!c.can_elevate());
    assert_eq!(
        c.get_elevation_error_message(),
        Some("You must be a member of the Administrators group to use sudo.".to_string())
    );
    let d = caps(ElevationEnvironment::AdminProtectionWithHello, true, HelloAvailability::Available, false, true, "x");
    assert!(!d.can_elevate());
    assert_eq!(
        d.get_elevation_error_message(),
        Some("You must be a member of the Administrators group to use sudo.".to_string())
    );
    let e = caps(ElevationEnvironment::AdminProtectionWithHello, true, HelloAvailability::Available, false, false, "x");
    assert!(e.get_elevation_error_message().unwrap().contains("broker service"));
}
