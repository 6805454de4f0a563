//! The settings of one request, resolved from its configuration header.

use vstd::prelude::*;
use vstd::string::StringExecFns;
use crate::json::{first_value, flat_json_object, pairs_map, parse_flat_object};
use crate::text::{decimal, eq_ignoring_case, same_ignoring_case, same_text, text_of, to_decimal};

verus! {

/// The name of the header that carries the settings.
pub const SETTINGS_HEADER: &'static str = "x-edgee-component-settings";

/// The subject of a mail whose settings name none.
pub const DEFAULT_SUBJECT: &'static str = "Contact request";

/// Why no settings could be resolved from a request's headers.
#[derive(Debug, Clone, PartialEq, Eq)]
pub enum ConfigError {
    /// The configuration header does not occur.
    Missing,
    /// The configuration header occurs this many times, which is more than
    /// once.
    Ambiguous(usize),
    /// The header's value is no JSON object of strings.
    Malformed,
}

#[derive(Debug, Clone, PartialEq, Eq)]
pub struct Settings {
    pub api_key: String,
    pub email_from: String,
    /// Defaults to [`DEFAULT_SUBJECT`].
    pub subject: String,
    pub template_id: Option<String>,
}

/// The settings as mathematical values.
pub struct SettingsView {
    pub api_key: Seq<char>,
    pub email_from: Seq<char>,
    pub subject: Seq<char>,
    pub template_id: Option<Seq<char>>,
}

impl View for Settings {
    type V = SettingsView;

    open spec fn view(&self) -> SettingsView {
        SettingsView {
            api_key: self.api_key@,
            email_from: self.email_from@,
            subject: self.subject@,
            template_id: text_of(self.template_id),
        }
    }
}

/// Whether a template identifier is configured: present and not empty.
pub open spec fn has_template(template_id: Option<Seq<char>>) -> bool {
    match template_id {
        Some(id) => id.len() > 0,
        None => false,
    }
}

/// Whether a template identifier is configured: present and not empty.
pub fn uses_template(template_id: &Option<String>) -> (r: bool)
    ensures
        r == has_template(text_of(*template_id)),
{
    match template_id {
        Some(id) => !id.as_str().is_empty(),
        None => false,
    }
}

/// Whether a header of this name carries the settings.
pub open spec fn is_settings_header(name: Seq<char>) -> bool {
    same_ignoring_case(name, SETTINGS_HEADER@)
}

/// The values of the configuration header among headers listed one value at
/// a time, in their order.
pub open spec fn entry_values(entries: Seq<(String, String)>) -> Seq<String>
    decreases entries.len(),
{
    if entries.len() == 0 {
        Seq::empty()
    } else if is_settings_header(entries.last().0@) {
        entry_values(entries.drop_last()).push(entries.last().1)
    } else {
        entry_values(entries.drop_last())
    }
}

/// The values of the configuration header among headers listed with all the
/// values of a name together, in their order.
pub open spec fn occurrences(headers: Seq<(String, Vec<String>)>) -> Seq<String>
    decreases headers.len(),
{
    if headers.len() == 0 {
        Seq::empty()
    } else if is_settings_header(headers.last().0@) {
        occurrences(headers.drop_last()) + headers.last().1@
    } else {
        occurrences(headers.drop_last())
    }
}

/// The value of a field, or a default where the field is absent.
pub open spec fn field_or(fields: Map<Seq<char>, Seq<char>>, key: Seq<char>, default: Seq<char>) -> Seq<char> {
    if fields.contains_key(key) {
        fields[key]
    } else {
        default
    }
}

/// The settings that a mapping of fields stands for.
pub open spec fn settings_of(fields: Map<Seq<char>, Seq<char>>) -> SettingsView {
    SettingsView {
        api_key: field_or(fields, "api_key"@, Seq::empty()),
        email_from: field_or(fields, "email_from"@, Seq::empty()),
        subject: field_or(fields, "subject"@, DEFAULT_SUBJECT@),
        template_id: if fields.contains_key("template_id"@) {
            Some(fields["template_id"@])
        } else {
            None
        },
    }
}

/// What the values found for the configuration header resolve to: exactly
/// one value is wanted, and it has to be a JSON object of strings.
pub open spec fn resolution(values: Seq<String>) -> Result<SettingsView, ConfigError> {
    if values.len() == 0 {
        Err(ConfigError::Missing)
    } else if values.len() > 1 {
        Err(ConfigError::Ambiguous(values.len() as usize))
    } else {
        match flat_json_object(values[0]@) {
            Some(fields) => Ok(settings_of(fields)),
            None => Err(ConfigError::Malformed),
        }
    }
}

/// Whether a result of resolving is the one that `expected` describes.
pub open spec fn resolves_to(r: Result<Settings, ConfigError>, expected: Result<SettingsView, ConfigError>) -> bool {
    match r {
        Ok(settings) => expected == Ok::<SettingsView, ConfigError>(settings@),
        Err(e) => expected == Err::<SettingsView, ConfigError>(e),
    }
}

fn lookup<'a>(pairs: &'a Vec<(String, String)>, key: &str) -> (found: Option<&'a String>)
    ensures
        match found {
            Some(v) => first_value(pairs@, key@) == Some(v@),
            None => first_value(pairs@, key@) is None,
        },
{
    let mut i: usize = 0;
    assert(pairs@.subrange(0, pairs.len() as int) =~= pairs@);
    while i < pairs.len()
        invariant
            i <= pairs.len(),
            first_value(pairs@, key@) == first_value(pairs@.subrange(i as int, pairs.len() as int), key@),
        decreases pairs.len() - i,
    {
        let ghost rest = pairs@.subrange(i as int, pairs.len() as int);
        assert(rest[0] == pairs@[i as int]);
        assert(rest.drop_first() =~= pairs@.subrange(i + 1, pairs.len() as int));
        if same_text(pairs[i].0.as_str(), key) {
            return Some(&pairs[i].1);
        }
        i += 1;
    }
    None
}

impl ConfigError {
    /// The error in words.
    pub fn to_string(&self) -> (r: String)
        ensures
            r@ == match *self {
                ConfigError::Missing => "Missing 'x-edgee-component-settings' header"@,
                ConfigError::Ambiguous(n) => "Expected exactly one 'x-edgee-component-settings' header, found "@
                    + decimal(n as nat),
                ConfigError::Malformed => "Invalid JSON in 'x-edgee-component-settings' header"@,
            },
    {
        match self {
            ConfigError::Missing => String::from_str("Missing 'x-edgee-component-settings' header"),
            ConfigError::Ambiguous(n) => {
                let count = to_decimal(*n);
                String::from_str("Expected exactly one 'x-edgee-component-settings' header, found ").concat(
                    count.as_str(),
                )
            },
            ConfigError::Malformed => String::from_str("Invalid JSON in 'x-edgee-component-settings' header"),
        }
    }
}

impl Settings {
    /// Resolves the settings from a request's headers, listed one value at a
    /// time. The configuration header is found whatever the case of its
    /// name, and has to occur exactly once.
    pub fn from_req(req: &Vec<(String, String)>) -> (r: Result<Settings, ConfigError>)
        ensures
            resolves_to(r, resolution(entry_values(req@))),
            entry_values(req@).len() == 0 ==> r == Err::<Settings, ConfigError>(ConfigError::Missing),
            entry_values(req@).len() > 1 ==> r == Err::<Settings, ConfigError>(
                ConfigError::Ambiguous(entry_values(req@).len() as usize),
            ),
            entry_values(req@).len() == 1 && flat_json_object(entry_values(req@)[0]@) is None ==> r == Err::<
                Settings,
                ConfigError,
            >(ConfigError::Malformed),
    {
        let mut values: Vec<&String> = Vec::new();
        let mut i: usize = 0;
        while i < req.len()
            invariant
                i <= req.len(),
                values@.len() == entry_values(req@.take(i as int)).len(),
                forall|j: int| 0 <= j < values@.len() ==> *(#[trigger] values@[j]) == entry_values(req@.take(i as int))[j],
            decreases req.len() - i,
        {
            assert(req@.take(i + 1).drop_last() =~= req@.take(i as int));
            if eq_ignoring_case(req[i].0.as_str(), SETTINGS_HEADER) {
                values.push(&req[i].1);
            }
            i += 1;
        }
        assert(req@.take(i as int) =~= req@);
        Settings::from_values(&values, Ghost(entry_values(req@)))
    }

    /// Resolves the settings from a request's headers, listed with all the
    /// values of a name together. The configuration header is found whatever
    /// the case of its name, and has to have exactly one value.
    pub fn new(headers: &Vec<(String, Vec<String>)>) -> (r: Result<Settings, ConfigError>)
        ensures
            resolves_to(r, resolution(occurrences(headers@))),
            occurrences(headers@).len() == 0 ==> r == Err::<Settings, ConfigError>(ConfigError::Missing),
            occurrences(headers@).len() > 1 ==> r == Err::<Settings, ConfigError>(
                ConfigError::Ambiguous(occurrences(headers@).len() as usize),
            ),
            occurrences(headers@).len() == 1 && flat_json_object(occurrences(headers@)[0]@) is None ==> r == Err::<
                Settings,
                ConfigError,
            >(ConfigError::Malformed),
    {
        let mut values: Vec<&String> = Vec::new();
        let mut i: usize = 0;
        while i < headers.len()
            invariant
                i <= headers.len(),
                values@.len() == occurrences(headers@.take(i as int)).len(),
                forall|j: int| 0 <= j < values@.len() ==> *(#[trigger] values@[j]) == occurrences(headers@.take(i as int))[j],
            decreases headers.len() - i,
        {
            assert(headers@.take(i + 1).drop_last() =~= headers@.take(i as int));
            if eq_ignoring_case(headers[i].0.as_str(), SETTINGS_HEADER) {
                let list = &headers[i].1;
                let ghost before = values@;
                let mut k: usize = 0;
                while k < list.len()
                    invariant
                        k <= list.len(),
                        values@.len() == before.len() + k,
                        forall|j: int| 0 <= j < before.len() ==> values@[j] == before[j],
                        forall|j: int|
                            before.len() <= j < values@.len() ==> *(#[trigger] values@[j]) == list@[j - before.len()],
                    decreases list.len() - k,
                {
                    values.push(&list[k]);
                    k += 1;
                }
                proof {
                    let earlier = occurrences(headers@.take(i as int));
                    let now = occurrences(headers@.take(i + 1));
                    assert(headers@.take(i + 1).last() == headers@[i as int]);
                    assert(now == earlier + list@);
                    assert forall|j: int| 0 <= j < values@.len() implies *(#[trigger] values@[j]) == now[j] by {
                        if j < before.len() {
                            assert(values@[j] == before[j]);
                        }
                    }
                }
            }
            i += 1;
        }
        assert(headers@.take(i as int) =~= headers@);
        Settings::from_values(&values, Ghost(occurrences(headers@)))
    }

    /// Resolves the settings from the one value of the configuration
    /// header.
    pub fn from_json(value: &str) -> (r: Result<Settings, ConfigError>)
        ensures
            match flat_json_object(value@) {
                Some(fields) => r matches Ok(settings) && settings@ == settings_of(fields),
                None => r == Err::<Settings, ConfigError>(ConfigError::Malformed),
            },
    {
        match parse_flat_object(value) {
            Ok(pairs) => Ok(Settings::from_fields(&pairs)),
            Err(_) => Err(ConfigError::Malformed),
        }
    }

    /// Reads the settings out of the fields of a parsed configuration value.
    /// No field is required: the key and the sender default to the empty
    /// text, the subject to [`DEFAULT_SUBJECT`], and the template stays
    /// absent.
    pub fn from_fields(fields: &Vec<(String, String)>) -> (settings: Settings)
        ensures
            settings@ == settings_of(pairs_map(fields@)),
    {
        let api_key = match lookup(fields, "api_key") {
            Some(v) => v.clone(),
            None => String::new(),
        };
        let email_from = match lookup(fields, "email_from") {
            Some(v) => v.clone(),
            None => String::new(),
        };
        let subject = match lookup(fields, "subject") {
            Some(v) => v.clone(),
            None => String::from_str(DEFAULT_SUBJECT),
        };
        let template_id = match lookup(fields, "template_id") {
            Some(v) => Some(v.clone()),
            None => None,
        };
        Settings { api_key, email_from, subject, template_id }
    }

    fn from_values(values: &Vec<&String>, Ghost(found): Ghost<Seq<String>>) -> (r: Result<Settings, ConfigError>)
        requires
            values@.len() == found.len(),
            forall|j: int| 0 <= j < values@.len() ==> *(#[trigger] values@[j]) == found[j],
        ensures
            resolves_to(r, resolution(found)),
    {
        if values.len() == 0 {
            Err(ConfigError::Missing)
        } else if values.len() > 1 {
            Err(ConfigError::Ambiguous(values.len()))
        } else {
            Settings::from_json(values[0].as_str())
        }
    }
}

/// Headers among which the configuration header does not occur resolve to
/// `Missing`.
pub proof fn missing_without_header(entries: Seq<(String, String)>)
    requires
        forall|i: int| 0 <= i < entries.len() ==> !is_settings_header(#[trigger] entries[i].0@),
    ensures
        entry_values(entries).len() == 0,
        resolution(entry_values(entries)) == Err::<SettingsView, ConfigError>(ConfigError::Missing),
    decreases entries.len(),
{
    if entries.len() > 0 {
        missing_without_header(entries.drop_last());
    }
}

/// Every occurrence of the configuration header adds one to the values
/// found: a header that occurs at `i` leaves at least one value.
pub proof fn found_with_header(entries: Seq<(String, String)>, i: int)
    requires
        0 <= i < entries.len(),
        is_settings_header(entries[i].0@),
    ensures
        entry_values(entries).len() >= 1,
        entry_values(entries).len() >= entry_values(entries.take(i)).len() + 1,
    decreases entries.len(),
{
    if i == entries.len() - 1 {
        assert(entries.take(i) =~= entries.drop_last());
    } else {
        found_with_header(entries.drop_last(), i);
        assert(entries.drop_last().take(i) =~= entries.take(i));
    }
}

/// Headers among which the configuration header occurs at two places or
/// more resolve to `Ambiguous`, with the number of its occurrences.
pub proof fn ambiguous_with_repeated_header(entries: Seq<(String, String)>, i: int, j: int)
    requires
        0 <= i < j < entries.len(),
        is_settings_header(entries[i].0@),
        is_settings_header(entries[j].0@),
    ensures
        entry_values(entries).len() >= 2,
        resolution(entry_values(entries)) == Err::<SettingsView, ConfigError>(
            ConfigError::Ambiguous(entry_values(entries).len() as usize),
        ),
{
    found_with_header(entries, j);
    found_with_header(entries.take(j), i);
}

/// A single configuration header whose value is no JSON object of strings
/// resolves to `Malformed`.
pub proof fn malformed_without_object(values: Seq<String>)
    requires
        values.len() == 1,
        flat_json_object(values[0]@) is None,
    ensures
        resolution(values) == Err::<SettingsView, ConfigError>(ConfigError::Malformed),
{
}

/// Grouped headers among which the configuration header does not occur, or
/// occurs with no value, resolve to `Missing`.
pub proof fn missing_without_occurrence(headers: Seq<(String, Vec<String>)>)
    requires
        forall|i: int|
            0 <= i < headers.len() ==> !is_settings_header(#[trigger] headers[i].0@) || headers[i].1@.len() == 0,
    ensures
        occurrences(headers).len() == 0,
        resolution(occurrences(headers)) == Err::<SettingsView, ConfigError>(ConfigError::Missing),
    decreases headers.len(),
{
    if headers.len() > 0 {
        missing_without_occurrence(headers.drop_last());
    }
}

/// The values found among grouped headers are at least those of any one
/// group of the configuration header.
pub proof fn found_with_occurrence(headers: Seq<(String, Vec<String>)>, i: int)
    requires
        0 <= i < headers.len(),
        is_settings_header(headers[i].0@),
    ensures
        occurrences(headers).len() >= headers[i].1@.len(),
    decreases headers.len(),
{
    if i < headers.len() - 1 {
        found_with_occurrence(headers.drop_last(), i);
    }
}

/// Grouped headers that hold two values or more for the configuration
/// header resolve to `Ambiguous`, with the number of values found.
pub proof fn ambiguous_with_repeated_value(headers: Seq<(String, Vec<String>)>, i: int)
    requires
        0 <= i < headers.len(),
        is_settings_header(headers[i].0@),
        headers[i].1@.len() >= 2,
    ensures
        resolution(occurrences(headers)) == Err::<SettingsView, ConfigError>(
            ConfigError::Ambiguous(occurrences(headers).len() as usize),
        ),
{
    found_with_occurrence(headers, i);
}

} // verus!
