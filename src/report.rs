use vstd::prelude::*;

use crate::copyright::{notice_of, recover_copyright_notice};
use crate::license::{LicenseId, LicenseSource};
use crate::text::{contains, seq_contains};

verus! {

/// Why no license description could be produced for a package.
#[derive(Debug, Clone, PartialEq, Eq)]
pub enum LicenseError {
    /// The package has no source locator.
    NoSource,
    /// The package's manifest, by path, declares no license.
    LicenseNotDeclared(String),
    /// No license file was found for the package, whose directory is given.
    UnableToRecoverLicenseFile(String),
    /// No copyright line was found in the given license text.
    UnableToRecoverAttribution(String),
    /// The declared license, given, is not one of the recognised ones.
    UnacceptableLicense(String),
}

/// The license chosen for a declaration: the first of `MIT`, `MPL-2.0` and
/// `BSD-3-Clause` that occurs in it as a substring, whatever surrounds it.
pub open spec fn classification_of(declared: Seq<char>) -> Option<LicenseId> {
    if seq_contains(declared, "MIT"@) {
        Some(LicenseId::Mit)
    } else if seq_contains(declared, "MPL-2.0"@) {
        Some(LicenseId::Mpl2)
    } else if seq_contains(declared, "BSD-3-Clause"@) {
        Some(LicenseId::Bsd3Clause)
    } else {
        None
    }
}

/// Chooses the license of a package from its declared SPDX expression.
/// Compound expressions are not parsed: the first identifier of the fixed
/// priority order that occurs anywhere in the text wins.
pub fn classify_declared_license(declared: &str) -> (r: Result<LicenseId, LicenseError>)
    ensures
        match classification_of(declared@) {
            Some(id) => r == Ok::<LicenseId, LicenseError>(id),
            None => r matches Err(LicenseError::UnacceptableLicense(d)) && d@ == declared@,
        },
{
    if contains(declared, "MIT") {
        Ok(LicenseId::Mit)
    } else if contains(declared, "MPL-2.0") {
        Ok(LicenseId::Mpl2)
    } else if contains(declared, "BSD-3-Clause") {
        Ok(LicenseId::Bsd3Clause)
    } else {
        Err(LicenseError::UnacceptableLicense(declared.to_string()))
    }
}

/// What was found out about the license of a package.
#[derive(Debug, Clone)]
pub struct LicenseDescription {
    pub chosen_license: LicenseId,
    pub copyright_notice: String,
    pub full_spdx_license: String,
    pub full_license_document: String,
    pub license_source: LicenseSource,
    pub link: Option<String>,
}

/// The conclusion for one package of the lock file.
#[derive(Debug)]
pub struct LicenseReport {
    pub package_name: String,
    pub version: String,
    pub conclusion: Result<LicenseDescription, LicenseError>,
}

/// The first link that a package's metadata offers: its homepage, else its
/// repository, else its documentation.
pub fn first_link(
    homepage: Option<String>,
    repository: Option<String>,
    documentation: Option<String>,
) -> (r: Option<String>)
    ensures
        homepage is Some ==> r == homepage,
        homepage is None && repository is Some ==> r == repository,
        homepage is None && repository is None ==> r == documentation,
{
    match homepage {
        Some(h) => Some(h),
        None => match repository {
            Some(p) => Some(p),
            None => documentation,
        },
    }
}

/// Concludes on a package whose declared license `declared` was classified as
/// `chosen`, from the license document that the resolution found, if any:
/// without a document the license file is missing from `package_dir`; with
/// one, its copyright line is recovered and the description assembled.
pub fn conclude(
    chosen: LicenseId,
    declared: String,
    found: Option<(LicenseSource, String)>,
    package_dir: String,
    link: Option<String>,
) -> (r: Result<LicenseDescription, LicenseError>)
    ensures
        found is None ==> (r matches Err(LicenseError::UnableToRecoverLicenseFile(p)) && p@
            == package_dir@),
        found matches Some((src, text)) ==> match notice_of(text@) {
            Some(n) => match r {
                Ok(d) => {
                    &&& d.chosen_license == chosen
                    &&& d.copyright_notice@ == n
                    &&& d.full_spdx_license@ == declared@
                    &&& d.full_license_document@ == text@
                    &&& d.license_source == src
                    &&& d.link == link
                },
                Err(_) => false,
            },
            None => r matches Err(LicenseError::UnableToRecoverAttribution(t)) && t@ == text@,
        },
{
    match found {
        None => Err(LicenseError::UnableToRecoverLicenseFile(package_dir)),
        Some((license_source, full_license_document)) => {
            match recover_copyright_notice(full_license_document.as_str()) {
                Ok(copyright_notice) => Ok(
                    LicenseDescription {
                        chosen_license: chosen,
                        copyright_notice,
                        full_spdx_license: declared,
                        full_license_document,
                        license_source,
                        link,
                    },
                ),
                Err(e) => Err(e),
            }
        },
    }
}

} // verus!
