//! The toolkit releases that can be installed, and the platforms they are
//! installed on.

use vstd::prelude::*;

verus! {

/// A supported toolkit release.
#[derive(Debug, Clone, Copy, PartialEq, Eq, Structural)]
pub enum CudaVersion {
    V12_5,
    V12_6,
    V12_8,
    V13_0_1,
}

/// The platform whose kernels the host runs.
#[derive(Debug, Clone, Copy, PartialEq, Eq, Structural)]
pub enum CloudProvider {
    Aws,
    Gcp,
    Azure,
}

/// What is known of a toolkit release.
pub struct Release {
    pub version: CudaVersion,
    /// Where the installer is downloaded from.
    pub toolkit_url: Seq<char>,
    /// The installer's MD5 checksum, in lower-case hexadecimal.
    pub toolkit_checksum: Seq<char>,
    /// The directory that holds the toolkit's programs once installed.
    pub bin_folder: Seq<char>,
    /// The directory that holds the toolkit's libraries once installed.
    pub lib_folder: Seq<char>,
    /// The version of the driver that the installer carries.
    pub driver_version: Seq<char>,
}

/// A toolkit release: its installer, where it installs to, and the driver
/// that comes with it. There is one for each [`CudaVersion`].
#[derive(Debug, PartialEq, Eq)]
pub struct CudaConfig {
    version: CudaVersion,
    toolkit_url: String,
    toolkit_checksum: String,
    bin_folder: String,
    lib_folder: String,
    driver_version: String,
}

/// The release's version as it is written: `12.5`.
pub open spec fn version_label(version: CudaVersion) -> Seq<char> {
    match version {
        CudaVersion::V12_5 => "12.5"@,
        CudaVersion::V12_6 => "12.6"@,
        CudaVersion::V12_8 => "12.8"@,
        CudaVersion::V13_0_1 => "13.0.1"@,
    }
}

/// What ends the version of the platform's kernels.
pub open spec fn platform_suffix(provider: CloudProvider) -> Seq<char> {
    match provider {
        CloudProvider::Aws => "-aws"@,
        CloudProvider::Gcp => "-cloud-amd64"@,
        CloudProvider::Azure => "-azure"@,
    }
}

/// The table of releases.
pub open spec fn release_of(version: CudaVersion) -> Release {
    match version {
        CudaVersion::V12_5 => Release {
            version,
            toolkit_url: "https://developer.download.nvidia.com/compute/cuda/12.5.0/local_installers/cuda_12.5.0_555.42.02_linux.run"@,
            toolkit_checksum: "0bf587ce20c8e74b90701be56ae2c907"@,
            bin_folder: "/usr/local/cuda-12.5/bin"@,
            lib_folder: "/usr/local/cuda-12.5/lib64"@,
            driver_version: "555.42.02"@,
        },
        CudaVersion::V12_6 => Release {
            version,
            toolkit_url: "https://developer.download.nvidia.com/compute/cuda/12.6.0/local_installers/cuda_12.6.0_560.28.03_linux.run"@,
            toolkit_checksum: "8685a58497b0c7e5d964e6da7968bb1e"@,
            bin_folder: "/usr/local/cuda-12.6/bin"@,
            lib_folder: "/usr/local/cuda-12.6/lib64"@,
            driver_version: "535.161.07"@,
        },
        CudaVersion::V12_8 => Release {
            version,
            toolkit_url: "https://developer.download.nvidia.com/compute/cuda/12.8.0/local_installers/cuda_12.8.0_570.86.10_linux.run"@,
            toolkit_checksum: "c71027cf1a4ce84f80b9cbf81116e767"@,
            bin_folder: "/usr/local/cuda-12.8/bin"@,
            lib_folder: "/usr/local/cuda-12.8/lib64"@,
            driver_version: "550.54.14"@,
        },
        CudaVersion::V13_0_1 => Release {
            version,
            toolkit_url: "https://developer.download.nvidia.com/compute/cuda/13.0.1/local_installers/cuda_13.0.1_580.82.07_linux.run"@,
            toolkit_checksum: "8c56e3cb1ab74370aafed5a4600bc5bc"@,
            bin_folder: "/usr/local/cuda-13.0.1/bin"@,
            lib_folder: "/usr/local/cuda-13.0.1/lib64"@,
            driver_version: "580.82.07"@,
        },
    }
}

impl View for CudaConfig {
    type V = Release;

    closed spec fn view(&self) -> Release {
        Release {
            version: self.version,
            toolkit_url: self.toolkit_url@,
            toolkit_checksum: self.toolkit_checksum@,
            bin_folder: self.bin_folder@,
            lib_folder: self.lib_folder@,
            driver_version: self.driver_version@,
        }
    }
}

impl CudaVersion {
    /// The version as it is written: `12.5`.
    pub fn label(&self) -> (text: &'static str)
        ensures
            text@ == version_label(*self),
    {
        match self {
            CudaVersion::V12_5 => "12.5",
            CudaVersion::V12_6 => "12.6",
            CudaVersion::V12_8 => "12.8",
            CudaVersion::V13_0_1 => "13.0.1",
        }
    }
}

impl CloudProvider {
    /// What ends the version of the platform's kernels.
    pub fn kernel_suffix(&self) -> (suffix: &'static str)
        ensures
            suffix@ == platform_suffix(*self),
    {
        match self {
            CloudProvider::Aws => "-aws",
            CloudProvider::Gcp => "-cloud-amd64",
            CloudProvider::Azure => "-azure",
        }
    }
}

impl CudaConfig {
    /// The release of the given version.
    pub fn new(version: CudaVersion) -> (config: Self)
        ensures
            config@ == release_of(version),
    {
        match version {
            CudaVersion::V12_5 => CudaConfig {
                version,
                toolkit_url: String::from_str(
                    "https://developer.download.nvidia.com/compute/cuda/12.5.0/local_installers/cuda_12.5.0_555.42.02_linux.run",
                ),
                toolkit_checksum: String::from_str("0bf587ce20c8e74b90701be56ae2c907"),
                bin_folder: String::from_str("/usr/local/cuda-12.5/bin"),
                lib_folder: String::from_str("/usr/local/cuda-12.5/lib64"),
                driver_version: String::from_str("555.42.02"),
            },
            CudaVersion::V12_6 => CudaConfig {
                version,
                toolkit_url: String::from_str(
                    "https://developer.download.nvidia.com/compute/cuda/12.6.0/local_installers/cuda_12.6.0_560.28.03_linux.run",
                ),
                toolkit_checksum: String::from_str("8685a58497b0c7e5d964e6da7968bb1e"),
                bin_folder: String::from_str("/usr/local/cuda-12.6/bin"),
                lib_folder: String::from_str("/usr/local/cuda-12.6/lib64"),
                driver_version: String::from_str("535.161.07"),
            },
            CudaVersion::V12_8 => CudaConfig {
                version,
                toolkit_url: String::from_str(
                    "https://developer.download.nvidia.com/compute/cuda/12.8.0/local_installers/cuda_12.8.0_570.86.10_linux.run",
                ),
                toolkit_checksum: String::from_str("c71027cf1a4ce84f80b9cbf81116e767"),
                bin_folder: String::from_str("/usr/local/cuda-12.8/bin"),
                lib_folder: String::from_str("/usr/local/cuda-12.8/lib64"),
                driver_version: String::from_str("550.54.14"),
            },
            CudaVersion::V13_0_1 => CudaConfig {
                version,
                toolkit_url: String::from_str(
                    "https://developer.download.nvidia.com/compute/cuda/13.0.1/local_installers/cuda_13.0.1_580.82.07_linux.run",
                ),
                toolkit_checksum: String::from_str("8c56e3cb1ab74370aafed5a4600bc5bc"),
                bin_folder: String::from_str("/usr/local/cuda-13.0.1/bin"),
                lib_folder: String::from_str("/usr/local/cuda-13.0.1/lib64"),
                driver_version: String::from_str("580.82.07"),
            },
        }
    }

    /// A configuration is a row of the table of releases.
    #[verifier::type_invariant]
    spec fn is_release(self) -> bool {
        self@ == release_of(self.version)
    }

    /// The version of the release. Whatever else the configuration holds is
    /// what the table of releases gives for this version.
    pub fn version(&self) -> (version: CudaVersion)
        ensures
            version == self@.version,
            self@ == release_of(version),
    {
        proof {
            use_type_invariant(self);
        }
        self.version
    }

    /// Where the installer is downloaded from.
    pub fn toolkit_url(&self) -> (url: &str)
        ensures
            url@ == self@.toolkit_url,
    {
        self.toolkit_url.as_str()
    }

    /// The installer's MD5 checksum, in lower-case hexadecimal.
    pub fn toolkit_checksum(&self) -> (checksum: &str)
        ensures
            checksum@ == self@.toolkit_checksum,
    {
        self.toolkit_checksum.as_str()
    }

    /// The directory that holds the toolkit's programs once installed.
    pub fn bin_folder(&self) -> (path: &str)
        ensures
            path@ == self@.bin_folder,
    {
        self.bin_folder.as_str()
    }

    /// The directory that holds the toolkit's libraries once installed.
    pub fn lib_folder(&self) -> (path: &str)
        ensures
            path@ == self@.lib_folder,
    {
        self.lib_folder.as_str()
    }

    /// The version of the driver that the installer carries.
    pub fn driver_version(&self) -> (version: &str)
        ensures
            version@ == self@.driver_version,
    {
        self.driver_version.as_str()
    }
}

} // verus!
