//! Writing a first configuration file: which sample to write, whether
//! it may be written, and the code to exit with.

use vstd::prelude::*;
use crate::config::{Config, ConfigView};
use crate::samples::{
    maximal_config, maximal_target, minimal_config, minimal_target, sample_log_file, url_lines,
};
use crate::names::normalized;

verus! {

/// How much the sample says.
#[derive(Clone, Copy, Debug, PartialEq, Eq, Structural)]
pub enum Size {
    /// Only what a configuration must say.
    Minimal,
    /// Every field, at its default.
    Maximal,
}

/// How writing the sample ended.
#[derive(Clone, Copy, Debug, PartialEq, Eq, Structural)]
pub enum InitOutcome {
    /// The file was written.
    Written,
    /// Reading the list of URLs or writing the file failed.
    IoError,
    /// The file exists already and may not be overwritten.
    Conflict,
}

/// The sample of the given size: for the URLs in `urls`, one on each
/// line, or for the example URL where there are none.
pub open spec fn sample_for(size: Size, urls: Option<Seq<char>>) -> ConfigView {
    match (size, urls) {
        (Size::Minimal, None) => minimal_config(seq![minimal_target("http://example.com"@)]),
        (Size::Maximal, None) => maximal_config(
            seq![
                maximal_target(
                    "https://example.com"@,
                    "./log/https-example-com.log"@,
                    "http://localhost:12345"@,
                ),
            ],
        ),
        (Size::Minimal, Some(u)) => minimal_config(
            url_lines(u).map_values(|l: Seq<char>| minimal_target(l)),
        ),
        (Size::Maximal, Some(u)) => maximal_config(
            url_lines(u).map_values(
                |l: Seq<char>|
                    maximal_target(l, sample_log_file(normalized(l)), "https://localhost:12345"@),
            ),
        ),
    }
}

/// The sample configuration to write.
pub fn sample_config(size: Size, urls: Option<String>) -> (r: Config)
    ensures
        r@ == sample_for(
            size,
            match urls {
                Some(u) => Some(u@),
                None => None,
            },
        ),
{
    match urls {
        Some(u) => match size {
            Size::Minimal => Config::create_with_minimal_fields_with_urls(u),
            Size::Maximal => Config::create_with_maximum_fields_with_urls(u),
        },
        None => match size {
            Size::Minimal => Config::create_with_minimal_fields(),
            Size::Maximal => Config::create_with_maximum_fields(),
        },
    }
}

/// Whether the sample may be written: always where no file is there,
/// and over an existing file only when told to overwrite.
pub fn may_write(present: bool, overwrite: bool) -> (r: bool)
    ensures
        r == (!present || overwrite),
{
    !present || overwrite
}

/// The code to exit with: 0 after writing, 1 after an I/O error, 2
/// where an existing file stood in the way.
pub fn exit_code(outcome: InitOutcome) -> (r: u8)
    ensures
        r == match outcome {
            InitOutcome::Written => 0u8,
            InitOutcome::IoError => 1u8,
            InitOutcome::Conflict => 2u8,
        },
{
    match outcome {
        InitOutcome::Written => 0,
        InitOutcome::IoError => 1,
        InitOutcome::Conflict => 2,
    }
}

} // verus!
