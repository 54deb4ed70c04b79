//! Export of translation data as JSON text or as a source module.

use vstd::prelude::*;
use vstd::string::StringExecFns;

use crate::json::{compact_json, compact_text, pretty_json, pretty_text};
use crate::text::same_text;

verus! {

/// Whether a character has the Unicode property White_Space.
pub open spec fn is_white_space(c: char) -> bool {
    let u = c as u32;
    ||| 0x09 <= u <= 0x0D
    ||| u == 0x20
    ||| u == 0x85
    ||| u == 0xA0
    ||| u == 0x1680
    ||| 0x2000 <= u <= 0x200A
    ||| u == 0x2028
    ||| u == 0x2029
    ||| u == 0x202F
    ||| u == 0x205F
    ||| u == 0x3000
}

/// A text without its leading and trailing white space.
pub open spec fn trimmed(s: Seq<char>) -> Seq<char>
    decreases s.len(),
{
    if s.len() > 0 && is_white_space(s.first()) {
        trimmed(s.drop_first())
    } else if s.len() > 0 && is_white_space(s.last()) {
        trimmed(s.drop_last())
    } else {
        s
    }
}

/// Calls `str::trim`. The standard library documents it as returning the slice
/// with leading and trailing white space removed, white space being the
/// characters with the Unicode property White_Space; `trimmed` says the same.
#[verifier::external_body]
fn trim(s: &str) -> (t: &str)
    ensures
        t@ == trimmed(s@),
{
    s.trim()
}

/// The shapes in which data can be exported.
#[derive(PartialEq, Eq, Debug, Clone, Copy, Structural)]
pub enum ExportFormat {
    /// Plain JSON text.
    Json,
    /// A source module that binds the JSON to a constant and exports it.
    Javascript,
}

/// What a client may ask of an export. Both choices are optional.
#[derive(Debug, Clone)]
pub struct ExportArgs {
    pub format: Option<String>,
    pub pretty: Option<bool>,
}

impl ExportFormat {
    /// The format that an exact token names.
    pub open spec fn named(token: Seq<char>) -> Option<ExportFormat> {
        if token == "json"@ {
            Some(ExportFormat::Json)
        } else if token == "javascript"@ {
            Some(ExportFormat::Javascript)
        } else {
            None
        }
    }

    /// The text of a source module that binds `json` to the constant `symbol`.
    pub open spec fn module_text(symbol: Seq<char>, json: Seq<char>) -> Seq<char> {
        "// This file was auto-generated. Do not edit by hand!\n\n/* tslint:disable */\n\nexport const "@
            + symbol + " = "@ + json + ";\n\nexport default "@ + symbol + ";\n"@
    }

    /// What is sent for `json` in this format.
    pub open spec fn framed(self, symbol: Seq<char>, json: Seq<char>) -> Seq<char> {
        match self {
            ExportFormat::Json => json,
            ExportFormat::Javascript => ExportFormat::module_text(symbol, json),
        }
    }

    /// Reads a format from an exact token.
    pub fn from_token(token: &str) -> (format: Option<ExportFormat>)
        ensures
            format == ExportFormat::named(token@),
    {
        if same_text(token, "json") {
            Some(ExportFormat::Json)
        } else if same_text(token, "javascript") {
            Some(ExportFormat::Javascript)
        } else {
            None
        }
    }

    /// Reads a format from a query value, ignoring white space around it.
    pub fn from_str(s: &str) -> (format: Option<ExportFormat>)
        ensures
            format == ExportFormat::named(trimmed(s@)),
    {
        ExportFormat::from_token(trim(s))
    }

    /// Puts serialized JSON into this format.
    pub fn frame(&self, symbol: &str, json: String) -> (text: String)
        ensures
            text@ == self.framed(symbol@, json@),
    {
        match self {
            ExportFormat::Json => json,
            ExportFormat::Javascript => {
                let mut text = String::from_str(
                    "// This file was auto-generated. Do not edit by hand!\n\n/* tslint:disable */\n\nexport const ",
                );
                text.append(symbol);
                text.append(" = ");
                text.append(json.as_str());
                text.append(";\n\nexport default ");
                text.append(symbol);
                text.append(";\n");
                text
            },
        }
    }
}

impl ExportArgs {
    /// The format that applies: the one asked for where it is a known one,
    /// plain JSON otherwise.
    pub open spec fn chosen_format(self) -> ExportFormat {
        match self.format {
            Some(raw) => match ExportFormat::named(trimmed(raw@)) {
                Some(format) => format,
                None => ExportFormat::Json,
            },
            None => ExportFormat::Json,
        }
    }

    /// Whether the JSON is to be indented: only where that was asked for.
    pub open spec fn wants_pretty(self) -> bool {
        self.pretty == Some(true)
    }

    /// The JSON text of `data` as the client asked for it: indented or
    /// compact.
    pub open spec fn json_of(self, data: serde_json::Value) -> Seq<char> {
        if self.wants_pretty() {
            pretty_json(data)
        } else {
            compact_json(data)
        }
    }

    /// What is sent for `data` under the constant `symbol`: its JSON text in
    /// the chosen layout, put into the chosen format.
    pub open spec fn rendered(self, data: serde_json::Value, symbol: Seq<char>) -> Seq<char> {
        self.chosen_format().framed(symbol, self.json_of(data))
    }

    /// Decides `chosen_format`.
    pub fn export_format(&self) -> (format: ExportFormat)
        ensures
            format == self.chosen_format(),
    {
        match &self.format {
            Some(raw) => match ExportFormat::from_str(raw.as_str()) {
                Some(format) => format,
                None => ExportFormat::Json,
            },
            None => ExportFormat::Json,
        }
    }

    /// Decides `wants_pretty`.
    pub fn is_pretty(&self) -> (pretty: bool)
        ensures
            pretty == self.wants_pretty(),
    {
        match self.pretty {
            Some(pretty) => pretty,
            None => false,
        }
    }
}

/// Serializes `data` as the client asked, indented or compact, and frames
/// the text for the constant `symbol`.
pub fn render_export(data: &serde_json::Value, args: &ExportArgs, symbol: &str) -> (text: String)
    ensures
        text@ == args.rendered(*data, symbol@),
{
    let format = args.export_format();
    let serialized = if args.is_pretty() {
        pretty_text(data)
    } else {
        compact_text(data)
    };
    format.frame(symbol, serialized.unwrap())
}

/// The export of all translations of one language, bound to `translations`
/// where a source module is asked for.
pub fn export_translations(data: &serde_json::Value, args: &ExportArgs) -> (text: String)
    ensures
        text@ == args.rendered(*data, "translations"@),
{
    render_export(data, args, "translations")
}

/// The export of the key tree, bound to `intlKeys` where a source module is
/// asked for.
pub fn export_keys(tree: &serde_json::Value, args: &ExportArgs) -> (text: String)
    ensures
        text@ == args.rendered(*tree, "intlKeys"@),
{
    render_export(tree, args, "intlKeys")
}

} // verus!
