use ew_backup_gen::resource::{manifest_script, resource_script};

const SCRIPT: &str = r#"/**
 * ?: Tells the precompiler to use the UTF-8 code page to compile the resources
 * See: https://learn.microsoft.com/en-us/windows/win32/menurc/pragma-directives
 * See: https://learn.microsoft.com/en-us/windows/win32/intl/code-page-identifiers
 */
#pragma code_page(65001) // UTF-8
#include <winuser.h>

// Icono
IDI_ICON1 ICON "assets/icon.ico"

// Información de versión
1 VERSIONINFO
FILEVERSION 1,2,3,0
PRODUCTVERSION 1,2,3,0
FILEOS 0x4
FILETYPE 0x1
{
    BLOCK "StringFileInfo"
    {
        //?: Español (España)
        BLOCK "040A04B0"  // Español (España), UTF-8
        {
            VALUE "CompanyName", "The Streamer Company SpA."
            VALUE "FileDescription", "Generador de Copias de Seguridad para EasyWorship 2009"
            VALUE "FileVersion", "1.2.3"
            VALUE "InternalName", "ew_backup_gen"
            VALUE "LegalCopyright", "Copyright © 2026 - The Streamer Company SpA. All rights reserved."
            VALUE "OriginalFilename", "ew_backup_gen.exe"
            VALUE "ProductName", "EW Backup Gen"
            VALUE "ProductVersion", "1.2.3"
            VALUE "Comments", "N/A"
        }

        //?: Español (Latinoamérica / Internacional)
        BLOCK "040A04E4"  // Español (Latinoamérica), UTF-8
        {
            VALUE "CompanyName", "The Streamer Company SpA."
            VALUE "FileDescription", "Generador de Copias de Seguridad para EasyWorship 2009"
            VALUE "FileVersion", "1.2.3"
            VALUE "InternalName", "ew_backup_gen"
            VALUE "LegalCopyright", "Copyright © 2026 - The Streamer Company SpA. All rights reserved."
            VALUE "OriginalFilename", "ew_backup_gen.exe"
            VALUE "ProductName", "EW Backup Gen"
            VALUE "ProductVersion", "1.2.3"
            VALUE "Comments", "N/A"
        }

        //?: Inglés (Estados Unidos) - como respaldo
        BLOCK "040904B0"  // Inglés (EE.UU.), UTF-8
        {
            VALUE "CompanyName", "The Streamer Company SpA."
            VALUE "FileDescription", "EasyWorship 2009 Backup Generator"
            VALUE "FileVersion", "1.2.3"
            VALUE "InternalName", "ew_backup_gen"
            VALUE "LegalCopyright", "Copyright © 2026 - The Streamer Company SpA. All rights reserved."
            VALUE "OriginalFilename", "ew_backup_gen.exe"
            VALUE "ProductName", "EW Backup Gen"
            VALUE "ProductVersion", "1.2.3"
            VALUE "Comments", "N/A"
        }
    }
    BLOCK "VarFileInfo"
    {
        // Lista de traducciones disponibles
        VALUE "Translation", 0x40A, 1200, 0x409, 1200 //?: Español (España), Español (LatAm), Inglés (EE.UU.), UTF-8
    }
}
"#;

#[test]
fn script_holds_both_versions() {
    assert_eq!(resource_script("1.2.3", "1,2,3,0"), SCRIPT);
}

#[test]
fn script_is_written_from_a_manifest() {
    let manifest = "[package]\nname = \"x\"\nversion = \"1.2.3\"\n";
    assert_eq!(manifest_script(manifest), SCRIPT);
    assert_eq!(manifest_script(""), resource_script("0.0.0.0", "0,0,0,0"));
}
