use cuda_setup::release::{CloudProvider, CudaConfig, CudaVersion};
use cuda_setup::target::{
    kernel_series, newest_kernel_build, resolve_target_kernel, KernelIdentity,
};

const LISTING: &str = "\
linux-image-5.15.0-1015-aws - Linux kernel image for version 5.15.0 on 64 bit x86 SMP
linux-image-5.15.0-1031-aws - Linux kernel image for version 5.15.0 on 64 bit x86 SMP
linux-image-5.15.12-2031-aws - Linux kernel image for version 5.15.12 on 64 bit x86 SMP
linux-image-5.15.12-7-aws - Linux kernel image for version 5.15.12 on 64 bit x86 SMP
linux-image-5.15.3-9999-aws - Linux kernel image for version 5.15.3 on 64 bit x86 SMP
linux-image-5.15.99-1-azure - Linux kernel image for version 5.15.99 on 64 bit x86 SMP
linux-image-6.1.0-1-aws - Linux kernel image for version 6.1.0 on 64 bit x86 SMP
linux-image-aws - Linux kernel image for Amazon Web Services (AWS) systems
";

#[test]
fn series_is_the_first_two_fields() {
    assert_eq!(
        kernel_series("5.15.0-1015-aws"),
        Some((String::from("5"), String::from("15")))
    );
    assert_eq!(kernel_series("6.1"), Some((String::from("6"), String::from("1"))));
    assert_eq!(kernel_series("6."), Some((String::from("6"), String::from(""))));
    assert_eq!(kernel_series("6"), None);
    assert_eq!(kernel_series(""), None);
}

#[test]
fn newest_build_goes_by_patch_then_micro() {
    assert_eq!(newest_kernel_build(LISTING, "linux-image-5.15", "-aws"), (12, 2031));
    assert_eq!(newest_kernel_build(LISTING, "linux-image-5.15", "-azure"), (99, 1));
    assert_eq!(newest_kernel_build(LISTING, "linux-image-6.1", "-aws"), (0, 1));
}

#[test]
fn micro_breaks_a_tie_between_equal_patches() {
    let listing = "linux-image-5.15.0-1031-aws x\nlinux-image-5.15.0-1015-aws x\n";
    assert_eq!(newest_kernel_build(listing, "linux-image-5.15", "-aws"), (0, 1031));
    let listing = "linux-image-5.15.0-1015-aws x\nlinux-image-5.15.0-1031-aws x\n";
    assert_eq!(newest_kernel_build(listing, "linux-image-5.15", "-aws"), (0, 1031));
}

#[test]
fn an_empty_or_foreign_listing_gives_zero_zero() {
    assert_eq!(newest_kernel_build("", "linux-image-5.15", "-aws"), (0, 0));
    assert_eq!(newest_kernel_build("\n\n", "linux-image-5.15", "-aws"), (0, 0));
    assert_eq!(newest_kernel_build(LISTING, "linux-image-4.4", "-aws"), (0, 0));
    assert_eq!(newest_kernel_build(LISTING, "linux-image-5.15", "-cloud-amd64"), (0, 0));
}

#[test]
fn only_the_first_word_of_a_line_is_the_name() {
    let listing = "note linux-image-5.15.7-1-aws\n\t linux-image-5.15.2-3-aws\tdescription\r\n";
    assert_eq!(newest_kernel_build(listing, "linux-image-5.15", "-aws"), (2, 3));
}

#[test]
fn target_is_composed_from_series_build_and_suffix() {
    let target = resolve_target_kernel("5.15.0-1015-aws\n".trim(), LISTING, "-aws").unwrap();
    assert_eq!(
        target,
        KernelIdentity {
            major: String::from("5"),
            minor: String::from("15"),
            patch: 12,
            micro: 2031,
            suffix: String::from("-aws"),
        }
    );
    assert_eq!(target.release_core(), "5.15.12-2031");
    assert_eq!(target.version(), "5.15.12-2031-aws");
    assert_eq!(target.image_package(), "linux-image-5.15.12-2031-aws");
    assert_eq!(target.headers_package(), "linux-headers-5.15.12-2031-aws");
}

#[test]
fn target_without_candidates_falls_back_to_zero_zero() {
    let target = resolve_target_kernel("5.15.0-1015-aws", "", "-aws").unwrap();
    assert_eq!((target.patch, target.micro), (0, 0));
    assert_eq!(target.image_package(), "linux-image-5.15.0-0-aws");
}

#[test]
fn target_needs_a_series() {
    assert_eq!(resolve_target_kernel("garbage", LISTING, "-aws"), None);
}

#[test]
fn running_kernel_is_matched_by_substring() {
    let target = resolve_target_kernel("5.15.0-1015-aws", LISTING, "-aws").unwrap();
    assert!(target.is_running("5.15.12-2031-aws"));
    assert!(target.is_running("5.15.12-2031"));
    assert!(!target.is_running("5.15.0-1015-aws"));
    assert!(!target.is_running("5.15.12-203"));
    // A substring match also accepts a longer micro number.
    assert!(target.is_running("5.15.12-20311-aws"));
}

#[test]
fn platform_suffixes() {
    assert_eq!(CloudProvider::Aws.kernel_suffix(), "-aws");
    assert_eq!(CloudProvider::Gcp.kernel_suffix(), "-cloud-amd64");
    assert_eq!(CloudProvider::Azure.kernel_suffix(), "-azure");
}

#[test]
fn version_labels() {
    assert_eq!(CudaVersion::V12_5.label(), "12.5");
    assert_eq!(CudaVersion::V12_6.label(), "12.6");
    assert_eq!(CudaVersion::V12_8.label(), "12.8");
    assert_eq!(CudaVersion::V13_0_1.label(), "13.0.1");
}

#[test]
fn release_table() {
    let config = CudaConfig::new(CudaVersion::V12_5);
    assert_eq!(config.version(), CudaVersion::V12_5);
    assert_eq!(
        config.toolkit_url(),
        "https://developer.download.nvidia.com/compute/cuda/12.5.0/local_installers/cuda_12.5.0_555.42.02_linux.run"
    );
    assert_eq!(config.toolkit_checksum(), "0bf587ce20c8e74b90701be56ae2c907");
    assert_eq!(config.bin_folder(), "/usr/local/cuda-12.5/bin");
    assert_eq!(config.lib_folder(), "/usr/local/cuda-12.5/lib64");
    assert_eq!(config.driver_version(), "555.42.02");

    let config = CudaConfig::new(CudaVersion::V12_6);
    assert_eq!(
        config.toolkit_url(),
        "https://developer.download.nvidia.com/compute/cuda/12.6.0/local_installers/cuda_12.6.0_560.28.03_linux.run"
    );
    assert_eq!(config.toolkit_checksum(), "8685a58497b0c7e5d964e6da7968bb1e");
    assert_eq!(config.bin_folder(), "/usr/local/cuda-12.6/bin");
    assert_eq!(config.lib_folder(), "/usr/local/cuda-12.6/lib64");
    assert_eq!(config.driver_version(), "535.161.07");

    let config = CudaConfig::new(CudaVersion::V12_8);
    assert_eq!(
        config.toolkit_url(),
        "https://developer.download.nvidia.com/compute/cuda/12.8.0/local_installers/cuda_12.8.0_570.86.10_linux.run"
    );
    assert_eq!(config.toolkit_checksum(), "c71027cf1a4ce84f80b9cbf81116e767");
    assert_eq!(config.bin_folder(), "/usr/local/cuda-12.8/bin");
    assert_eq!(config.lib_folder(), "/usr/local/cuda-12.8/lib64");
    assert_eq!(config.driver_version(), "550.54.14");

    let config = CudaConfig::new(CudaVersion::V13_0_1);
    assert_eq!(
        config.toolkit_url(),
        "https://developer.download.nvidia.com/compute/cuda/13.0.1/local_installers/cuda_13.0.1_580.82.07_linux.run"
    );
    assert_eq!(config.toolkit_checksum(), "8c56e3cb1ab74370aafed5a4600bc5bc");
    assert_eq!(config.bin_folder(), "/usr/local/cuda-13.0.1/bin");
    assert_eq!(config.lib_folder(), "/usr/local/cuda-13.0.1/lib64");
    assert_eq!(config.driver_version(), "580.82.07");
}
