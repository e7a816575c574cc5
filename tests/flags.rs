use outlook_mapi::{InitializeFlags, LogonFlags};

#[test]
fn initialize_flags_bits() {
    assert_eq!(u32::from(InitializeFlags::default()), 0);
    let flags = InitializeFlags {
        multithread_notifications: true,
        nt_service: true,
        no_coinit: true,
    };
    assert_eq!(u32::from(flags), 0x0001_0009);
    let flags = InitializeFlags {
        no_coinit: true,
        ..Default::default()
    };
    assert_eq!(u32::from(flags), 0x0000_0008);
}

#[test]
fn logon_flags_bits() {
    assert_eq!(u32::from(LogonFlags::default()), 0);
    let flags = LogonFlags {
        extended: true,
        unicode: true,
        logon_ui: true,
        use_default: true,
        ..Default::default()
    };
    assert_eq!(u32::from(flags), 0x8000_0061);
    let all = LogonFlags {
        allow_others: true,
        bg_session: true,
        explicit_profile: true,
        extended: true,
        force_download: true,
        logon_ui: true,
        new_session: true,
        no_mail: true,
        nt_service: true,
        service_ui_always: true,
        timeout_short: true,
        unicode: true,
        use_default: true,
    };
    let bits: u32 = all.into();
    assert_eq!(bits, 0x8031_B07B);
}
