use vstd::prelude::*;
use crate::format::{detect_binary_type, detect_spec, BinaryFormat, ScanError};

use crate::elf::{elf_headers_match, elf_parses, elf_record, ElfAnalyzer, ElfHeaders};
use crate::macho::{image_matches, macho_outcome, macho_record, MachHeaders, MachoAnalyzer};

verus! {

/// Everything learned about one scanned file. Paths are held as text and the
/// modification time as seconds since the Unix epoch.
#[derive(Debug, Clone)]
pub struct BinaryInfo {
    pub file_path: String,
    pub file_size: u64,
    pub file_modified: i64,
    /// "ELF" or "Mach-O".
    pub binary_type: String,
    pub architecture: String,
    pub is_64bit: bool,
    pub is_stripped: bool,
    pub has_debug_info: bool,
    // ELF identity
    pub build_id: Option<String>,
    pub gnu_debuglink: Option<String>,
    pub debug_sections: Vec<String>,
    // Mach-O identity
    pub uuid: Option<String>,
    pub dsym_bundle: Option<String>,
    // Resolved debug information
    pub debug_file_path: Option<String>,
    pub debuginfod_available: Option<bool>,
    pub debuginfod_url: Option<String>,
    // Layout
    pub entry_point: Option<String>,
    pub interpreter: Option<String>,
    pub is_pie: bool,
    pub is_executable: bool,
    pub is_library: bool,
    // Hardening
    pub has_nx: bool,
    pub has_canary: bool,
    pub has_relro: bool,
    pub has_fortify: bool,
}

impl BinaryInfo {
    pub open spec fn spec_has_local_debug_symbols(&self) -> bool {
        self.debug_file_path is Some || self.has_debug_info
    }

    /// Debug symbols are at hand locally: a separate file was found, or the
    /// binary carries them itself.
    pub fn has_local_debug_symbols(&self) -> (r: bool)
        ensures
            r == self.spec_has_local_debug_symbols(),
    {
        self.debug_file_path.is_some() || self.has_debug_info
    }

    /// A symbol server was asked and answered that it has them.
    pub fn has_remote_debug_symbols(&self) -> (r: bool)
        ensures
            r == (self.debuginfod_available == Some(true)),
    {
        match self.debuginfod_available {
            Some(b) => b,
            None => false,
        }
    }

    /// Records the outcome of a symbol-server lookup: `lookup` is what the
    /// servers answered, or `None` where there was no build identifier to
    /// ask about.
    pub fn record_remote(&mut self, lookup: Option<(bool, Option<String>)>)
        ensures
            final(self).debuginfod_available == Some(
                match lookup {
                    Some(l) => l.0,
                    None => false,
                },
            ),
            final(self).debuginfod_url == (match lookup {
                Some(l) => l.1,
                None => None::<String>,
            }),
            final(self).build_id == old(self).build_id,
            final(self).debug_file_path == old(self).debug_file_path,
            final(self).has_debug_info == old(self).has_debug_info,
    {
        match lookup {
            Some((available, url)) => {
                self.debuginfod_available = Some(available);
                self.debuginfod_url = url;
            },
            None => {
                self.debuginfod_available = Some(false);
                self.debuginfod_url = None;
            },
        }
    }

    /// Records a dSYM bundle found for a Mach-O binary; it is also the
    /// binary's local debug location.
    pub fn record_dsym(&mut self, bundle: Option<String>)
        ensures
            final(self).dsym_bundle == bundle,
            final(self).debug_file_path == bundle,
            final(self).has_debug_info == old(self).has_debug_info,
            final(self).uuid == old(self).uuid,
    {
        self.dsym_bundle = bundle.clone();
        self.debug_file_path = bundle;
    }
}

/// Analyses one file's bytes: detects the format and runs the matching
/// analyzer. Buffers that are too small or of an unknown format are refused
/// before any parsing.
pub fn scan_binary(path: &str, data: &[u8], file_size: u64, file_modified: i64) -> (r: Result<
    BinaryInfo,
    ScanError,
>)
    ensures
        detect_spec(data@) matches Err(e) ==> r == Err::<BinaryInfo, ScanError>(e),
        detect_spec(data@) == Ok::<BinaryFormat, ScanError>(BinaryFormat::Elf) ==> (if elf_parses(
            data@,
        ) {
            r matches Ok(info) && exists|h: ElfHeaders|
                elf_headers_match(h, data@) && elf_record(path@, data@, file_size, file_modified, h, info)
        } else {
            r == Err::<BinaryInfo, ScanError>(ScanError::Malformed)
        }),
        detect_spec(data@) == Ok::<BinaryFormat, ScanError>(BinaryFormat::MachO) ==> match macho_outcome(
            data@,
        ) {
            Ok((a, b)) => r matches Ok(info) && exists|h: MachHeaders|
                image_matches(h, data@.subrange(a, b)) && macho_record(path@, file_size, file_modified, h, info),
            Err(e) => r == Err::<BinaryInfo, ScanError>(e),
        },
{
    match detect_binary_type(data) {
        Err(e) => Err(e),
        Ok(BinaryFormat::Elf) => {
            match ElfAnalyzer::new(path, data, file_size, file_modified) {
                Ok(a) => Ok(a.analyze()),
                Err(e) => Err(e),
            }
        },
        Ok(BinaryFormat::MachO) => {
            let a = MachoAnalyzer::new(path, data, file_size, file_modified);
            a.analyze()
        },
    }
}

/// Local debug symbols are reported exactly when a separate file was found
/// or debug information is embedded, for every combination of the two.
pub proof fn lemma_local_symbols_iff(info: BinaryInfo)
    ensures
        info.spec_has_local_debug_symbols() <==> (info.debug_file_path is Some || info.has_debug_info),
        info.debug_file_path is None && !info.has_debug_info ==> !info.spec_has_local_debug_symbols(),
        info.debug_file_path is Some ==> info.spec_has_local_debug_symbols(),
        info.has_debug_info ==> info.spec_has_local_debug_symbols(),
{
}

} // verus!
