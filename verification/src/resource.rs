//! The resources of the Windows executable: its icon and its version.

use vstd::prelude::*;

use crate::version;
use crate::version::{package_version, windows_version};

verus! {

/// What stands before the version of the file.
pub const HEAD: &'static str = r#"/**
 * ?: Tells the precompiler to use the UTF-8 code page to compile the resources
 * See: https://learn.microsoft.com/en-us/windows/win32/menurc/pragma-directives
 * See: https://learn.microsoft.com/en-us/windows/win32/intl/code-page-identifiers
 */
#pragma code_page(65001) // UTF-8
#include <winuser.h>

// Icono
IDI_ICON1 ICON "assets/icon.ico"

// Información de versión
1 VERSIONINFO
FILEVERSION "#;

pub const PRODUCT_VERSION: &'static str = "\nPRODUCTVERSION ";

/// What stands between the version numbers and the texts in each language.
pub const FILE_INFO: &'static str = r#"
FILEOS 0x4
FILETYPE 0x1
{
    BLOCK "StringFileInfo"
    {
"#;

pub const SPAIN: &'static str = r#"        //?: Español (España)
        BLOCK "040A04B0"  // Español (España), UTF-8
        {
"#;

pub const LATIN_AMERICA: &'static str = r#"
        //?: Español (Latinoamérica / Internacional)
        BLOCK "040A04E4"  // Español (Latinoamérica), UTF-8
        {
"#;

pub const UNITED_STATES: &'static str = r#"
        //?: Inglés (Estados Unidos) - como respaldo
        BLOCK "040904B0"  // Inglés (EE.UU.), UTF-8
        {
"#;

/// What stands before the description.
pub const COMPANY: &'static str = r#"            VALUE "CompanyName", "The Streamer Company SpA."
            VALUE "FileDescription", ""#;

pub const SPANISH_DESCRIPTION: &'static str = "Generador de Copias de Seguridad para EasyWorship 2009";

pub const ENGLISH_DESCRIPTION: &'static str = "EasyWorship 2009 Backup Generator";

/// What stands between the description and the version of the file.
pub const FILE_VERSION_TEXT: &'static str = r#""
            VALUE "FileVersion", ""#;

/// What stands between the version of the file and that of the product.
pub const NAMES: &'static str = r#""
            VALUE "InternalName", "ew_backup_gen"
            VALUE "LegalCopyright", "Copyright © 2026 - The Streamer Company SpA. All rights reserved."
            VALUE "OriginalFilename", "ew_backup_gen.exe"
            VALUE "ProductName", "EW Backup Gen"
            VALUE "ProductVersion", ""#;

/// What stands after the version of the product.
pub const LANGUAGE_END: &'static str = r#""
            VALUE "Comments", "N/A"
        }
"#;

/// What stands after the texts in each language.
pub const LANGUAGES: &'static str = r#"    }
    BLOCK "VarFileInfo"
    {
        // Lista de traducciones disponibles
        VALUE "Translation", 0x40A, 1200, 0x409, 1200 //?: Español (España), Español (LatAm), Inglés (EE.UU.), UTF-8
    }
}
"#;

/// The texts in one language.
pub open spec fn language_text(
    heading: Seq<char>,
    description: Seq<char>,
    version: Seq<char>,
) -> Seq<char> {
    heading + COMPANY@ + description + FILE_VERSION_TEXT@ + version + NAMES@ + version
        + LANGUAGE_END@
}

/// The script that the resources are compiled from.
pub open spec fn resource_text(version: Seq<char>, windows_version: Seq<char>) -> Seq<char> {
    HEAD@ + windows_version + PRODUCT_VERSION@ + windows_version + FILE_INFO@ + language_text(
        SPAIN@,
        SPANISH_DESCRIPTION@,
        version,
    ) + language_text(LATIN_AMERICA@, SPANISH_DESCRIPTION@, version) + language_text(
        UNITED_STATES@,
        ENGLISH_DESCRIPTION@,
        version,
    ) + LANGUAGES@
}

/// Whatever the versions are, the script is the same but for them: the number twice at its head,
/// and the version twice in each of three languages.
pub proof fn law_script_is_filled_in_with_the_versions(
    version: Seq<char>,
    windows_version: Seq<char>,
)
    ensures
        resource_text(version, windows_version) == HEAD@ + windows_version + PRODUCT_VERSION@
            + windows_version + FILE_INFO@ + (SPAIN@ + COMPANY@ + SPANISH_DESCRIPTION@
            + FILE_VERSION_TEXT@ + version + NAMES@ + version + LANGUAGE_END@) + (LATIN_AMERICA@
            + COMPANY@ + SPANISH_DESCRIPTION@ + FILE_VERSION_TEXT@ + version + NAMES@ + version
            + LANGUAGE_END@) + (UNITED_STATES@ + COMPANY@ + ENGLISH_DESCRIPTION@
            + FILE_VERSION_TEXT@ + version + NAMES@ + version + LANGUAGE_END@) + LANGUAGES@,
{
}

/// Writes the texts in one language.
fn language_script(heading: &str, description: &str, version: &str) -> (r: String)
    ensures
        r@ == language_text(heading@, description@, version@),
{
    let mut r = heading.to_string();
    r.append(COMPANY);
    r.append(description);
    r.append(FILE_VERSION_TEXT);
    r.append(version);
    r.append(NAMES);
    r.append(version);
    r.append(LANGUAGE_END);
    r
}

/// Writes the script that the resources are compiled from.
pub fn resource_script(version: &str, windows_version: &str) -> (r: String)
    ensures
        r@ == resource_text(version@, windows_version@),
{
    let mut r = HEAD.to_string();
    r.append(windows_version);
    r.append(PRODUCT_VERSION);
    r.append(windows_version);
    r.append(FILE_INFO);
    r.append(language_script(SPAIN, SPANISH_DESCRIPTION, version).as_str());
    r.append(language_script(LATIN_AMERICA, SPANISH_DESCRIPTION, version).as_str());
    r.append(language_script(UNITED_STATES, ENGLISH_DESCRIPTION, version).as_str());
    r.append(LANGUAGES);
    r
}

/// Writes the script for the version that a manifest sets.
pub fn manifest_script(manifest: &str) -> (r: String)
    ensures
        r@ == resource_text(
            version::manifest_version(manifest@),
            version::windows_text(version::manifest_version(manifest@)),
        ),
{
    let version = package_version(manifest);
    let windows = windows_version(version.as_str());
    resource_script(version.as_str(), windows.as_str())
}

} // verus!
