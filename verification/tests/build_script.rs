use gainsnap::bundle::{bundle_format, windows_rustc_link_arg, BundleFormat};

#[test]
fn windows_link_arg_has_no_quotes() {
    let arg = windows_rustc_link_arg("dist/plugin.vst3");

    assert_eq!(arg, r"/OUT:dist\plugin.vst3");
    assert!(!arg.contains('"'));
}

#[test]
fn windows_link_arg_normalizes_windows_like_path_separators() {
    let arg = windows_rustc_link_arg("D:/workspace/gainsnap/dist/gainsnap-v0.1.0.vst3");

    assert_eq!(arg, r"/OUT:D:\workspace\gainsnap\dist\gainsnap-v0.1.0.vst3");
    assert!(!arg.contains('"'));
}

#[test]
fn windows_link_arg_keeps_other_characters() {
    assert_eq!(windows_rustc_link_arg(""), "/OUT:");
    assert_eq!(
        windows_rustc_link_arg("C:\\über dir/\"x\"//y"),
        "/OUT:C:\\über dir\\\"x\"\\\\y"
    );
}

#[test]
fn bundle_format_follows_the_named_artifact_before_the_features() {
    assert_eq!(bundle_format(Some("clap"), true), Some(BundleFormat::Clap));
    assert_eq!(bundle_format(Some("vst3"), false), Some(BundleFormat::Vst3));
    assert_eq!(bundle_format(Some("VST3"), true), None);
    assert_eq!(bundle_format(Some(""), true), None);
    assert_eq!(bundle_format(None, true), Some(BundleFormat::Vst3));
    assert_eq!(bundle_format(None, false), Some(BundleFormat::Clap));
}
