use aztec_noir::error::ResolveError;
use aztec_noir::platform::{Architecture, Os, Platform};

#[test]
fn labels_are_those_the_host_api_prints() {
    assert_eq!(Os::Mac.label(), format!("{:?}", zed_extension_api::Os::Mac));
    assert_eq!(Os::Linux.label(), format!("{:?}", zed_extension_api::Os::Linux));
    assert_eq!(Os::Windows.label(), format!("{:?}", zed_extension_api::Os::Windows));
    assert_eq!(
        Architecture::Aarch64.label(),
        format!("{:?}", zed_extension_api::Architecture::Aarch64)
    );
    assert_eq!(Architecture::X86.label(), format!("{:?}", zed_extension_api::Architecture::X86));
    assert_eq!(
        Architecture::X8664.label(),
        format!("{:?}", zed_extension_api::Architecture::X8664)
    );
}

#[test]
fn unsupported_platform_message_matches_the_host_rendering() {
    let error = ResolveError::UnsupportedPlatform(Platform {
        os: Os::Linux,
        arch: Architecture::X86,
    });
    let expected = format!(
        "unsupported platform: {:?} {:?}",
        zed_extension_api::Os::Linux,
        zed_extension_api::Architecture::X86
    );
    assert_eq!(error.message(), expected);
}
