//! Option values given as text: the maximum payload size and the output
//! format, matched without regard to case; and the output mode and run
//! configuration chosen by command-line flags.

use vstd::prelude::*;
use crate::payload::PayloadSize;
use crate::results::SpeedTestConfig;
use crate::text::{chars_of, span_equals};

verus! {

/// What `str::to_lowercase` makes of a text.
pub uninterp spec fn lower_of(s: Seq<char>) -> Seq<char>;

/// Relies on `str::to_lowercase`: the lowercase mapping of Unicode, which
/// depends on the characters alone; an empty text stays empty.
#[verifier::external_body]
fn lowercase(s: &str) -> (r: String)
    ensures
        r@ == lower_of(s@),
        s@.len() == 0 ==> r@.len() == 0,
{
    s.to_lowercase()
}

/// Whether `s` holds exactly the characters of `lit`.
fn text_is(c: &Vec<char>, lit: &str) -> (r: bool)
    ensures
        r == (c@ == lit@),
{
    let r = span_equals(c, 0, c.len(), lit);
    assert(c@.subrange(0, c@.len() as int) =~= c@);
    r
}

/// The payload size that a lowercase name stands for.
pub open spec fn payload_size_named(t: Seq<char>) -> Option<PayloadSize> {
    if t == "100_000"@ || t == "100000"@ || t == "100k"@ || t == "100kb"@ {
        Some(PayloadSize::K100)
    } else if t == "1_000_000"@ || t == "1000000"@ || t == "1m"@ || t == "1mb"@ {
        Some(PayloadSize::M1)
    } else if t == "10_000_000"@ || t == "10000000"@ || t == "10m"@ || t == "10mb"@ {
        Some(PayloadSize::M10)
    } else if t == "25_000_000"@ || t == "25000000"@ || t == "25m"@ || t == "25mb"@ {
        Some(PayloadSize::M25)
    } else if t == "100_000_000"@ || t == "100000000"@ || t == "100m"@ || t == "100mb"@ {
        Some(PayloadSize::M100)
    } else {
        None
    }
}

/// The output format that a lowercase name stands for.
pub open spec fn output_format_named(t: Seq<char>) -> Option<OutputFormat> {
    if t == "csv"@ {
        Some(OutputFormat::Csv)
    } else if t == "json"@ {
        Some(OutputFormat::Json)
    } else if t == "json_pretty"@ || t == "json-pretty"@ {
        Some(OutputFormat::JsonPretty)
    } else if t == "stdout"@ {
        Some(OutputFormat::StdOut)
    } else {
        None
    }
}

impl PayloadSize {
    /// The size named by `lower`, which is already in lowercase.
    pub fn from_lowercase(lower: &str) -> (r: Result<PayloadSize, String>)
        ensures
            match r {
                Ok(p) => payload_size_named(lower@) == Some(p),
                Err(e) => payload_size_named(lower@) is None && e@
                    == "Value needs to be one of 100k, 1m, 10m, 25m or 100m"@,
            },
    {
        let c = chars_of(lower);
        if text_is(&c, "100_000") || text_is(&c, "100000") || text_is(&c, "100k") || text_is(
            &c,
            "100kb",
        ) {
            Ok(PayloadSize::K100)
        } else if text_is(&c, "1_000_000") || text_is(&c, "1000000") || text_is(&c, "1m")
            || text_is(&c, "1mb") {
            Ok(PayloadSize::M1)
        } else if text_is(&c, "10_000_000") || text_is(&c, "10000000") || text_is(&c, "10m")
            || text_is(&c, "10mb") {
            Ok(PayloadSize::M10)
        } else if text_is(&c, "25_000_000") || text_is(&c, "25000000") || text_is(&c, "25m")
            || text_is(&c, "25mb") {
            Ok(PayloadSize::M25)
        } else if text_is(&c, "100_000_000") || text_is(&c, "100000000") || text_is(&c, "100m")
            || text_is(&c, "100mb") {
            Ok(PayloadSize::M100)
        } else {
            Err("Value needs to be one of 100k, 1m, 10m, 25m or 100m".to_owned())
        }
    }

    /// The size named by `payload_string`, in any case: `100k`, `1m`, `10m`,
    /// `25m` or `100m`, each also with a `b` after it or as a plain byte
    /// count, with or without `_` between groups of three digits.
    pub fn from(payload_string: String) -> (r: Result<PayloadSize, String>)
        ensures
            match r {
                Ok(p) => payload_size_named(lower_of(payload_string@)) == Some(p),
                Err(e) => payload_size_named(lower_of(payload_string@)) is None && e@
                    == "Value needs to be one of 100k, 1m, 10m, 25m or 100m"@,
            },
    {
        let lower = lowercase(payload_string.as_str());
        PayloadSize::from_lowercase(lower.as_str())
    }
}

/// Parses a maximum payload size given on the command line.
pub fn parse_payload_size(input_string: &str) -> (r: Result<PayloadSize, String>)
    ensures
        match r {
            Ok(p) => payload_size_named(lower_of(input_string@)) == Some(p),
            Err(e) => payload_size_named(lower_of(input_string@)) is None && e@
                == "Value needs to be one of 100k, 1m, 10m, 25m or 100m"@,
        },
{
    PayloadSize::from(input_string.to_owned())
}

/// Where and how the summary of a run is written.
#[derive(Debug, Clone, Copy, PartialEq, Eq, Structural)]
pub enum OutputFormat {
    Csv,
    Json,
    JsonPretty,
    StdOut,
    /// No output at all; shown as `None`.
    Silent,
}

impl OutputFormat {
    /// The format named by `lower`, which is already in lowercase.
    pub fn from_lowercase(lower: &str) -> (r: Result<OutputFormat, String>)
        ensures
            match r {
                Ok(f) => output_format_named(lower@) == Some(f),
                Err(e) => output_format_named(lower@) is None && e@
                    == "Value needs to be one of csv, json or json-pretty"@,
            },
    {
        let c = chars_of(lower);
        if text_is(&c, "csv") {
            Ok(OutputFormat::Csv)
        } else if text_is(&c, "json") {
            Ok(OutputFormat::Json)
        } else if text_is(&c, "json_pretty") || text_is(&c, "json-pretty") {
            Ok(OutputFormat::JsonPretty)
        } else if text_is(&c, "stdout") {
            Ok(OutputFormat::StdOut)
        } else {
            Err("Value needs to be one of csv, json or json-pretty".to_owned())
        }
    }

    /// The format named by `output_format_string`, in any case: `csv`,
    /// `json`, `json-pretty` (or `json_pretty`) or `stdout`.
    pub fn from(output_format_string: String) -> (r: Result<OutputFormat, String>)
        ensures
            match r {
                Ok(f) => output_format_named(lower_of(output_format_string@)) == Some(f),
                Err(e) => output_format_named(lower_of(output_format_string@)) is None && e@
                    == "Value needs to be one of csv, json or json-pretty"@,
            },
    {
        let lower = lowercase(output_format_string.as_str());
        OutputFormat::from_lowercase(lower.as_str())
    }

    /// The variant's name.
    pub fn to_string(&self) -> (r: String)
        ensures
            r@ == (match *self {
                OutputFormat::Csv => "Csv"@,
                OutputFormat::Json => "Json"@,
                OutputFormat::JsonPretty => "JsonPretty"@,
                OutputFormat::StdOut => "StdOut"@,
                OutputFormat::Silent => "None"@,
            }),
    {
        match self {
            OutputFormat::Csv => "Csv".to_owned(),
            OutputFormat::Json => "Json".to_owned(),
            OutputFormat::JsonPretty => "JsonPretty".to_owned(),
            OutputFormat::StdOut => "StdOut".to_owned(),
            OutputFormat::Silent => "None".to_owned(),
        }
    }
}

/// Parses an output format given on the command line.
pub fn parse_output_format(input_string: &str) -> (r: Result<OutputFormat, String>)
    ensures
        match r {
            Ok(f) => output_format_named(lower_of(input_string@)) == Some(f),
            Err(e) => output_format_named(lower_of(input_string@)) is None && e@
                == "Value needs to be one of csv, json or json-pretty"@,
        },
{
    OutputFormat::from(input_string.to_owned())
}

/// Which kind of output a run produces.
#[derive(Debug, Clone, Copy, PartialEq, Eq, Structural)]
pub enum OutputMode {
    Tui,
    Simple,
    Json,
    JsonPretty,
    Csv,
}

impl OutputMode {
    /// The mode chosen by the output flags; the first set flag in the order
    /// simple, json, json-pretty, csv wins, and none set means the dashboard.
    pub fn from_flags(simple: bool, json: bool, json_pretty: bool, csv: bool) -> (r: OutputMode)
        ensures
            r == (if simple {
                OutputMode::Simple
            } else if json {
                OutputMode::Json
            } else if json_pretty {
                OutputMode::JsonPretty
            } else if csv {
                OutputMode::Csv
            } else {
                OutputMode::Tui
            }),
    {
        if simple {
            OutputMode::Simple
        } else if json {
            OutputMode::Json
        } else if json_pretty {
            OutputMode::JsonPretty
        } else if csv {
            OutputMode::Csv
        } else {
            OutputMode::Tui
        }
    }
}

/// Maximum payload size as the command line names it.
#[derive(Debug, Clone, Copy, PartialEq, Eq, Structural)]
pub enum MaxPayloadArg {
    K100,
    M1,
    M10,
    M25,
    M100,
}

impl From<MaxPayloadArg> for PayloadSize {
    fn from(arg: MaxPayloadArg) -> (r: PayloadSize) {
        match arg {
            MaxPayloadArg::K100 => PayloadSize::K100,
            MaxPayloadArg::M1 => PayloadSize::M1,
            MaxPayloadArg::M10 => PayloadSize::M10,
            MaxPayloadArg::M25 => PayloadSize::M25,
            MaxPayloadArg::M100 => PayloadSize::M100,
        }
    }
}

impl vstd::std_specs::convert::FromSpecImpl<MaxPayloadArg> for PayloadSize {
    open spec fn obeys_from_spec() -> bool {
        true
    }

    open spec fn from_spec(arg: MaxPayloadArg) -> PayloadSize {
        match arg {
            MaxPayloadArg::K100 => PayloadSize::K100,
            MaxPayloadArg::M1 => PayloadSize::M1,
            MaxPayloadArg::M10 => PayloadSize::M10,
            MaxPayloadArg::M25 => PayloadSize::M25,
            MaxPayloadArg::M100 => PayloadSize::M100,
        }
    }
}

impl SpeedTestConfig {
    /// The configuration that the command-line values select: a direction
    /// runs unless only the other one was asked for.
    pub fn from_options(
        nr_tests: u32,
        nr_latency_tests: u32,
        max_payload_size: PayloadSize,
        disable_dynamic_max_payload_size: bool,
        download_only: bool,
        upload_only: bool,
    ) -> (r: SpeedTestConfig)
        ensures
            r == (SpeedTestConfig {
                nr_tests,
                nr_latency_tests,
                max_payload_size,
                disable_dynamic_max_payload_size,
                download: !upload_only,
                upload: !download_only,
            }),
    {
        SpeedTestConfig {
            nr_tests,
            nr_latency_tests,
            max_payload_size,
            disable_dynamic_max_payload_size,
            download: !upload_only,
            upload: !download_only,
        }
    }
}

} // verus!
