//! Build information about the library and the embedded guest runtime.
//!
//! A full build collects these values while producing the guest image;
//! here they are fixed constants of the crate, which keeps the reporting
//! logic itself verifiable.

use vstd::prelude::*;

verus! {

/// The version of the Wasm engine the embedded guest runtime was built with.
pub open spec fn spec_wasmtime_version() -> Seq<char> {
    "36.0.2"@
}

/// Ghost image of a `BuildInfo` value.
pub ghost struct BuildInfoView {
    pub package_name: Seq<char>,
    pub package_version: Seq<char>,
    pub wasm_runtime_wasmtime_version: Seq<char>,
    pub profile: Seq<char>,
    pub debug: bool,
}

/// The build information for the library.
pub struct BuildInfo {
    /// The name of the package.
    pub package_name: &'static str,
    /// The version of the package.
    pub package_version: &'static str,
    /// The version of the Wasm engine used by the embedded guest runtime.
    pub wasm_runtime_wasmtime_version: &'static str,
    /// The profile the library was built under.
    pub profile: &'static str,
    /// Whether the build was a debug build.
    pub debug: bool,
}

impl View for BuildInfo {
    type V = BuildInfoView;

    open spec fn view(&self) -> BuildInfoView {
        BuildInfoView {
            package_name: self.package_name@,
            package_version: self.package_version@,
            wasm_runtime_wasmtime_version: self.wasm_runtime_wasmtime_version@,
            profile: self.profile@,
            debug: self.debug,
        }
    }
}

impl BuildInfo {
    /// The value that `get` returns.
    pub open spec fn spec_get() -> BuildInfoView {
        BuildInfoView {
            package_name: "hyperlight-wasm"@,
            package_version: "0.8.0"@,
            wasm_runtime_wasmtime_version: spec_wasmtime_version(),
            profile: "release"@,
            debug: false,
        }
    }

    /// Get the build information.
    pub fn get() -> (r: Self)
        ensures
            r@ == Self::spec_get(),
    {
        BuildInfo {
            package_name: "hyperlight-wasm",
            package_version: "0.8.0",
            wasm_runtime_wasmtime_version: "36.0.2",
            profile: "release",
            debug: false,
        }
    }

    /// Get the version of the Wasm engine used by the embedded guest runtime.
    pub fn get_wasmtime_version() -> (r: &'static str)
        ensures
            r@ == spec_wasmtime_version(),
    {
        "36.0.2"
    }

    /// The text that `report` produces.
    pub open spec fn spec_report(v: BuildInfoView) -> Seq<char> {
        "Package name: "@ + v.package_name + "\n"@ + "Package version: "@ + v.package_version
            + "\n"@ + "Wasm engine version: "@ + v.wasm_runtime_wasmtime_version + "\n"@
            + "Profile: "@ + v.profile + "\n"@
    }

    /// Render the build details as text, one field per line.
    pub fn report(&self) -> (r: String)
        ensures
            r@ == Self::spec_report(self@),
    {
        let mut s = String::new();
        s.append("Package name: ");
        s.append(self.package_name);
        s.append("\n");
        s.append("Package version: ");
        s.append(self.package_version);
        s.append("\n");
        s.append("Wasm engine version: ");
        s.append(self.wasm_runtime_wasmtime_version);
        s.append("\n");
        s.append("Profile: ");
        s.append(self.profile);
        s.append("\n");
        s
    }
}

impl Default for BuildInfo {
    /// The default build information is the build information of this build.
    fn default() -> (r: Self)
        ensures
            r@ == Self::spec_get(),
    {
        Self::get()
    }
}

} // verus!
