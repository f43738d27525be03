use vstd::prelude::*;
use vstd::string::StringExecFns;

verus! {

/// The directive that turns on the location-reporting compiler configuration.
pub open spec fn spec_cfg_directive() -> Seq<char> {
    "cargo:rustc-cfg=procmacro2_semver_exempt"@
}

/// The warning given where logging is asked for on a compiler that cannot provide it.
pub open spec fn spec_nightly_warning() -> Seq<char> {
    "cargo:warning=`CAST_CHECKS_LOG` is enabled, but this option requires a nightly compiler"@
}

/// The directive that reruns the build setup when the logging setting changes.
pub open spec fn spec_rerun_directive() -> Seq<char> {
    "cargo:rerun-if-env-changed=CAST_CHECKS_LOG"@
}

/// The directives that the build setup prints, in order: where logging is
/// asked for, the configuration that enables it on a nightly compiler, or a
/// warning on any other; and in every case the request to rerun when the
/// setting changes.
pub fn build_directives(log_requested: bool, nightly: bool) -> (res: Vec<String>)
    ensures
        res@.map_values(|s: String| s@) == if !log_requested {
            seq![spec_rerun_directive()]
        } else if nightly {
            seq![spec_cfg_directive(), spec_rerun_directive()]
        } else {
            seq![spec_nightly_warning(), spec_rerun_directive()]
        },
{
    let mut res: Vec<String> = Vec::new();
    if log_requested {
        if nightly {
            res.push(String::from_str("cargo:rustc-cfg=procmacro2_semver_exempt"));
        } else {
            res.push(
                String::from_str(
                    "cargo:warning=`CAST_CHECKS_LOG` is enabled, but this option requires a nightly compiler",
                ),
            );
        }
    }
    res.push(String::from_str("cargo:rerun-if-env-changed=CAST_CHECKS_LOG"));
    assert(res@.map_values(|s: String| s@) =~= if !log_requested {
        seq![spec_rerun_directive()]
    } else if nightly {
        seq![spec_cfg_directive(), spec_rerun_directive()]
    } else {
        seq![spec_nightly_warning(), spec_rerun_directive()]
    });
    res
}

} // verus!
