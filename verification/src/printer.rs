//! Rendering the descriptor fields of an opened device as output lines.

use vstd::prelude::*;
use vstd::string::StringExecFns;

use crate::decimal::dec_rep;
use crate::decimal::dec_string;
use crate::locator::Descriptor;

verus! {

/// The reads that can abort the whole print operation, in the order they are
/// attempted: the device descriptor, the supported-language list, and the
/// active configuration number.
#[derive(Clone, Copy, PartialEq, Eq, Structural, Debug)]
pub enum InfoError {
    DescriptorRead,
    LanguageRead,
    ConfigRead,
}

/// The outcomes of the reads against an opened device, in the order the
/// printer attempts them. `None` models a failed read. The three string
/// fields are consulted only when the language list is non-empty.
#[derive(Debug)]
pub struct DeviceReads {
    pub descriptor: Option<Descriptor>,
    pub languages: Option<Vec<u16>>,
    pub active_config: Option<u8>,
    pub manufacturer: Option<String>,
    pub product: Option<String>,
    pub serial: Option<String>,
}

/// A string read outcome, with a failed read masked by the placeholder text.
pub open spec fn string_or_placeholder(s: Option<Seq<char>>) -> Seq<char> {
    match s {
        Some(v) => v,
        None => "Not Found"@,
    }
}

/// The active-configuration line.
pub open spec fn config_line(n: nat) -> Seq<char> {
    "Active configuration: "@ + dec_rep(n)
}

/// The language line, showing the raw 16-bit language code.
pub open spec fn language_line(code: nat) -> Seq<char> {
    "Language: Language { raw: "@ + dec_rep(code) + " }"@
}

/// The manufacturer line; a failed read shows the placeholder.
pub open spec fn manufacturer_line(s: Option<Seq<char>>) -> Seq<char> {
    "Manufacturer: "@ + string_or_placeholder(s)
}

/// The product line; a failed read shows the placeholder.
pub open spec fn product_line(s: Option<Seq<char>>) -> Seq<char> {
    "Product: "@ + string_or_placeholder(s)
}

/// The serial-number line; a failed read shows the placeholder.
pub open spec fn serial_line(s: Option<Seq<char>>) -> Seq<char> {
    "Serial Number: "@ + string_or_placeholder(s)
}

/// What the printer emits for the read outcomes `r`: the descriptor, language
/// and configuration reads abort in that order when they failed, and
/// otherwise the lines are the active configuration alone when no language is
/// supported, or all five fields with each failed string read masked by the
/// placeholder.
pub open spec fn rendered_lines(r: DeviceReads) -> Result<Seq<Seq<char>>, InfoError> {
    if r.descriptor is None {
        Err(InfoError::DescriptorRead)
    } else if r.languages is None {
        Err(InfoError::LanguageRead)
    } else if r.active_config is None {
        Err(InfoError::ConfigRead)
    } else if r.languages->0@.len() == 0 {
        Ok(seq![config_line(r.active_config->0 as nat)])
    } else {
        Ok(
            seq![
                config_line(r.active_config->0 as nat),
                language_line(r.languages->0@[0] as nat),
                manufacturer_line(r.manufacturer.deep_view()),
                product_line(r.product.deep_view()),
                serial_line(r.serial.deep_view()),
            ],
        )
    }
}

/// When the supported-language list is empty and the three required reads
/// succeed, the printer emits exactly one line, the active configuration, and
/// no language, manufacturer, product or serial line.
pub proof fn lemma_empty_languages_single_line(r: DeviceReads)
    requires
        r.descriptor is Some,
        r.languages is Some,
        r.languages->0@.len() == 0,
        r.active_config is Some,
    ensures
        rendered_lines(r) is Ok,
        rendered_lines(r)->Ok_0.len() == 1,
        rendered_lines(r)->Ok_0[0] == config_line(r.active_config->0 as nat),
{
}

/// When the language list is non-empty and the manufacturer read fails, the
/// manufacturer line shows exactly the placeholder, while the product and
/// serial lines reflect their own reads' outcomes independently.
pub proof fn lemma_failed_manufacturer_masked(r: DeviceReads)
    requires
        r.descriptor is Some,
        r.languages is Some,
        r.languages->0@.len() > 0,
        r.active_config is Some,
        r.manufacturer is None,
    ensures
        rendered_lines(r) is Ok,
        rendered_lines(r)->Ok_0.len() == 5,
        rendered_lines(r)->Ok_0[2] == "Manufacturer: "@ + "Not Found"@,
        rendered_lines(r)->Ok_0[3] == product_line(r.product.deep_view()),
        rendered_lines(r)->Ok_0[4] == serial_line(r.serial.deep_view()),
{
}

/// When the active-configuration read fails while the descriptor and language
/// reads succeed, the whole operation fails and no line is emitted: the
/// configuration is read before anything is printed.
pub proof fn lemma_failed_config_aborts(r: DeviceReads)
    requires
        r.descriptor is Some,
        r.languages is Some,
        r.active_config is None,
    ensures
        rendered_lines(r) == Err::<Seq<Seq<char>>, InfoError>(InfoError::ConfigRead),
{
}

/// The text of a string read outcome: the string itself, or the placeholder
/// when the read failed.
fn string_or_placeholder_text(s: &Option<String>) -> (r: String)
    ensures
        r@ == string_or_placeholder(s.deep_view()),
{
    match s {
        Some(v) => v.clone(),
        None => String::from_str("Not Found"),
    }
}

/// Builds the line `prefix` followed by `rest`.
fn prefixed_line(prefix: &str, rest: String) -> (r: String)
    ensures
        r@ == prefix@ + rest@,
{
    let mut s = String::from_str(prefix);
    s.append(rest.as_str());
    s
}

/// The printer's decision to read the manufacturer, product and serial
/// strings: they are read exactly when the device supports some language.
pub fn wants_string_reads(languages: &Vec<u16>) -> (r: bool)
    ensures
        r == (languages@.len() > 0),
{
    languages.len() > 0
}

/// Renders the output lines for the read outcomes `reads`, or the error of
/// the first aborting read. The emitted lines are exactly those of
/// `rendered_lines`: nothing is emitted on failure.
pub fn render_device_info(reads: &DeviceReads) -> (r: Result<Vec<String>, InfoError>)
    ensures
        match r {
            Ok(lines) => rendered_lines(*reads) == Ok::<Seq<Seq<char>>, InfoError>(
                lines.deep_view(),
            ),
            Err(e) => rendered_lines(*reads) == Err::<Seq<Seq<char>>, InfoError>(e),
        },
{
    let descriptor = match &reads.descriptor {
        Some(d) => *d,
        None => { return Err(InfoError::DescriptorRead) },
    };
    let languages = match &reads.languages {
        Some(l) => l,
        None => { return Err(InfoError::LanguageRead) },
    };
    let config = match &reads.active_config {
        Some(c) => *c,
        None => { return Err(InfoError::ConfigRead) },
    };
    let mut lines: Vec<String> = Vec::new();
    lines.push(prefixed_line("Active configuration: ", dec_string(config as u32)));
    if languages.len() > 0 {
        let code = languages[0];
        let mut lang = prefixed_line("Language: Language { raw: ", dec_string(code as u32));
        lang.append(" }");
        lines.push(lang);
        lines.push(
            prefixed_line("Manufacturer: ", string_or_placeholder_text(&reads.manufacturer)),
        );
        lines.push(prefixed_line("Product: ", string_or_placeholder_text(&reads.product)));
        lines.push(prefixed_line("Serial Number: ", string_or_placeholder_text(&reads.serial)));
        proof {
            assert(lines.deep_view() =~= rendered_lines(*reads)->Ok_0);
        }
    } else {
        proof {
            assert(lines.deep_view() =~= rendered_lines(*reads)->Ok_0);
        }
    }
    Ok(lines)
}

} // verus!
