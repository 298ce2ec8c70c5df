use pulsar::profile::model::{Profile, ProtocolType};
use pulsar::report::{import_success_message, listing_header, listing_row, profile_details, DoctorReport};

#[test]
fn doctor_report_marks_and_summarizes() {
    let mut r = DoctorReport::new();
    r.pass("Platform supported: linux-x86_64");
    assert!(r.all_passed());
    assert_eq!(r.summary(), "\nAll checks passed.");
    r.fail("openvpn not executable");
    r.pass("later");
    assert!(!r.all_passed());
    assert_eq!(r.summary(), "\nSome checks failed.");
    assert_eq!(
        r.lines(),
        &vec![
            "✓ Platform supported: linux-x86_64".to_string(),
            "✗ openvpn not executable".to_string(),
            "✓ later".to_string()
        ]
    );
}

fn profile(name: &str) -> Profile {
    Profile {
        name: name.to_string(),
        protocol_type: ProtocolType::OpenvpnCloak,
        created_at: "2026-01-01T00:00:00Z".to_string(),
        remote_host: "1.2.3.4".to_string(),
        remote_port: 443,
        local_cloak_port: 1194,
    }
}

#[test]
fn listing_lines_match_the_table_format() {
    assert_eq!(listing_header(), format!("{:<20} {:<15} {:<10} HOST", "NAME", "PROTOCOL", "PORT"));
    let p = profile("home");
    assert_eq!(
        listing_row(&p),
        format!("{:<20} {:<15} {:<10} {}", "home", "openvpn-cloak", 443, "1.2.3.4")
    );
    let long = profile("a-very-long-profile-name-indeed");
    assert_eq!(
        listing_row(&long),
        format!("{:<20} {:<15} {:<10} {}", "a-very-long-profile-name-indeed", "openvpn-cloak", 443, "1.2.3.4")
    );
}

#[test]
fn details_and_messages() {
    let d = profile_details(&profile("home"));
    assert_eq!(
        d,
        vec![
            "Profile:     home",
            "Protocol:    openvpn-cloak",
            "Remote host: 1.2.3.4",
            "Remote port: 443",
            "Local port:  1194",
            "Created:     2026-01-01T00:00:00Z",
        ]
    );
    assert_eq!(import_success_message("home"), "Profile 'home' imported successfully.");
    assert_eq!(ProtocolType::OpenvpnCloak.as_str(), "openvpn-cloak");
}
