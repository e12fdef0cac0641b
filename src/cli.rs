//! Command-line arguments as values, and the checks on their text.

use vstd::prelude::*;

verus! {

/// The parsed command line.
#[derive(Debug)]
pub struct CliArgs {
    /// Output in JSON instead of human-readable text.
    pub json: bool,
    /// Verbose output for debugging.
    pub verbose: bool,
    /// The subcommand; without one the client runs interactively.
    pub command: Option<Commands>,
}

/// The subcommands.
#[derive(Debug)]
pub enum Commands {
    Status,
    List { name: Option<String>, location: Option<String>, sort: String },
    SetLocation { pet: String, location: String },
    Lock { device: String },
    LockIn { device: String },
    LockOut { device: String },
    Unlock { device: String },
    SetCurfew { device: String, lock_time: Option<String>, unlock_time: Option<String>, disable: bool },
    SetIndoor { pet: String },
    SetOutdoor { pet: String },
    FeedingHistory { pet: String, range: String },
    DrinkingHistory { pet: String, range: String },
    ActivityHistory { pet: String, range: String },
    Export { format: String, types: Vec<String>, range: String, output: Option<String> },
    SearchPets {
        name: Option<String>,
        breed: Option<String>,
        location: Option<String>,
        active_since: Option<u32>,
    },
    SearchDevices {
        name: Option<String>,
        device_type: Option<String>,
        min_battery: Option<u8>,
        online: Option<bool>,
    },
    Batch { operation: String, targets: Vec<String>, param: Option<String> },
    Logout,
    ResetConfig { yes: bool },
}

/// How the client runs.
#[derive(Debug, Clone, Copy, PartialEq, Eq, Structural)]
pub enum CliMode {
    /// Menu-driven.
    Interactive,
    /// One command, then exit.
    Headless,
}

impl CliArgs {
    /// Headless when a subcommand was given, else interactive.
    pub fn get_mode(&self) -> (r: CliMode)
        ensures
            r == (if self.command is Some {
                CliMode::Headless
            } else {
                CliMode::Interactive
            }),
    {
        match &self.command {
            Some(_) => CliMode::Headless,
            None => CliMode::Interactive,
        }
    }

    pub fn is_json_output(&self) -> (r: bool)
        ensures
            r == self.json,
    {
        self.json
    }

    pub fn is_verbose(&self) -> (r: bool)
        ensures
            r == self.verbose,
    {
        self.verbose
    }
}

/// The lower-case form of a text, as `str::to_lowercase` computes it.
pub uninterp spec fn lower_of(s: Seq<char>) -> Seq<char>;

/// Relies on `str::to_lowercase`: the result depends on the characters alone.
#[verifier::external_body]
fn lowercase(s: &str) -> (r: String)
    ensures
        r@ == lower_of(s@),
{
    s.to_lowercase()
}

fn same_text(a: &str, b: &str) -> (r: bool)
    ensures
        r == (a@ == b@),
{
    String::from_str(a) == String::from_str(b)
}

/// `text` between the two parts of a message.
pub open spec fn quoted_in(before: Seq<char>, text: Seq<char>, after: Seq<char>) -> Seq<char> {
    before + text + after
}

fn message(before: &str, text: &str, after: &str) -> (r: String)
    ensures
        r@ == quoted_in(before@, text@, after@),
{
    let mut m = String::from_str(before);
    m.append(text);
    m.append(after);
    m
}

/// The location code a lower-case location name stands for.
pub open spec fn spec_location_code(lower: Seq<char>) -> Option<u32> {
    if lower == "inside"@ || lower == "in"@ || lower == "1"@ {
        Some(1)
    } else if lower == "outside"@ || lower == "out"@ || lower == "2"@ {
        Some(2)
    } else {
        None
    }
}

/// The location code of an already lower-cased location name.
pub fn location_code(lower: &str) -> (r: Option<u32>)
    ensures
        r == spec_location_code(lower@),
{
    if same_text(lower, "inside") || same_text(lower, "in") || same_text(lower, "1") {
        Some(1)
    } else if same_text(lower, "outside") || same_text(lower, "out") || same_text(lower, "2") {
        Some(2)
    } else {
        None
    }
}

/// The location code (1 inside, 2 outside) of a location name, in any case.
pub fn parse_location(location: &str) -> (r: Result<u32, String>)
    ensures
        match spec_location_code(lower_of(location@)) {
            Some(c) => r == Ok::<u32, String>(c),
            None => r matches Err(m) && m@ == quoted_in(
                "Invalid location '"@,
                location@,
                "'. Use 'inside' or 'outside'"@,
            ),
        },
{
    let lower = lowercase(location);
    match location_code(lower.as_str()) {
        Some(c) => Ok(c),
        None => Err(message("Invalid location '", location, "'. Use 'inside' or 'outside'")),
    }
}

pub open spec fn is_export_format(lower: Seq<char>) -> bool {
    lower == "csv"@ || lower == "json"@
}

/// Accepts `csv` and `json`, in any case.
pub fn validate_export_format(format: &str) -> (r: Result<(), String>)
    ensures
        is_export_format(lower_of(format@)) ==> r is Ok,
        !is_export_format(lower_of(format@)) ==> (r matches Err(m) && m@ == quoted_in(
            "Invalid export format '"@,
            format@,
            "'. Use 'csv' or 'json'"@,
        )),
{
    let lower = lowercase(format);
    if same_text(lower.as_str(), "csv") || same_text(lower.as_str(), "json") {
        Ok(())
    } else {
        Err(message("Invalid export format '", format, "'. Use 'csv' or 'json'"))
    }
}

pub open spec fn is_export_type(lower: Seq<char>) -> bool {
    lower == "pets"@ || lower == "devices"@ || lower == "feeding"@ || lower == "drinking"@ || lower
        == "activity"@
}

/// Accepts a non-empty list of data types among pets, devices, feeding,
/// drinking and activity, in any case; the error names the first other one.
pub fn validate_export_types(types: &[String]) -> (r: Result<(), String>)
    ensures
        (forall|i: int| 0 <= i < types@.len() ==> is_export_type(lower_of(#[trigger] types@[i]@)))
            ==> if types@.len() == 0 {
            r matches Err(m) && m@ == "At least one data type must be specified"@
        } else {
            r is Ok
        },
        forall|i: int|
            0 <= i < types@.len() && !is_export_type(lower_of(#[trigger] types@[i]@)) && (forall|j: int|
                0 <= j < i ==> is_export_type(lower_of(#[trigger] types@[j]@))) ==> (r matches Err(m)
                && m@ == quoted_in(
                "Invalid data type '"@,
                types@[i]@,
                "'. Valid types: pets, devices, feeding, drinking, activity"@,
            )),
{
    let n = types.len();
    let mut i: usize = 0;
    while i < n
        invariant
            0 <= i <= n == types@.len(),
            forall|j: int| 0 <= j < i ==> is_export_type(lower_of(#[trigger] types@[j]@)),
        decreases n - i,
    {
        let lower = lowercase(types[i].as_str());
        let l = lower.as_str();
        if !(same_text(l, "pets") || same_text(l, "devices") || same_text(l, "feeding") || same_text(
            l,
            "drinking",
        ) || same_text(l, "activity")) {
            proof {
                assert forall|k: int|
                    0 <= k < types@.len() && !is_export_type(lower_of(#[trigger] types@[k]@)) && (forall|j: int|
                        0 <= j < k ==> is_export_type(lower_of(#[trigger] types@[j]@))) implies k == i by {
                    if k < i {
                    } else if k > i {
                        assert(is_export_type(lower_of(types@[i as int]@)));
                    }
                }
            }
            return Err(
                message(
                    "Invalid data type '",
                    types[i].as_str(),
                    "'. Valid types: pets, devices, feeding, drinking, activity",
                ),
            );
        }
        i = i + 1;
    }
    if n == 0 {
        return Err(String::from_str("At least one data type must be specified"));
    }
    Ok(())
}

pub open spec fn is_sort_criteria(lower: Seq<char>) -> bool {
    lower == "name"@ || lower == "activity"@ || lower == "location"@
}

/// Accepts `name`, `activity` and `location`, in any case.
pub fn validate_sort_criteria(sort: &str) -> (r: Result<(), String>)
    ensures
        is_sort_criteria(lower_of(sort@)) ==> r is Ok,
        !is_sort_criteria(lower_of(sort@)) ==> (r matches Err(m) && m@ == quoted_in(
            "Invalid sort criteria '"@,
            sort@,
            "'. Use 'name', 'activity', or 'location'"@,
        )),
{
    let lower = lowercase(sort);
    let l = lower.as_str();
    if same_text(l, "name") || same_text(l, "activity") || same_text(l, "location") {
        Ok(())
    } else {
        Err(message("Invalid sort criteria '", sort, "'. Use 'name', 'activity', or 'location'"))
    }
}

pub open spec fn is_batch_operation(lower: Seq<char>) -> bool {
    lower == "set-location"@ || lower == "set-indoor"@ || lower == "set-outdoor"@ || lower == "lock"@
        || lower == "unlock"@ || lower == "lock-in"@ || lower == "lock-out"@
}

/// Accepts the batch operations, in any case.
pub fn validate_batch_operation(operation: &str) -> (r: Result<(), String>)
    ensures
        is_batch_operation(lower_of(operation@)) ==> r is Ok,
        !is_batch_operation(lower_of(operation@)) ==> (r matches Err(m) && m@ == quoted_in(
            "Invalid batch operation '"@,
            operation@,
            "'. Valid operations: set-location, set-indoor, set-outdoor, lock, unlock, lock-in, lock-out"@,
        )),
{
    let lower = lowercase(operation);
    let l = lower.as_str();
    if same_text(l, "set-location") || same_text(l, "set-indoor") || same_text(l, "set-outdoor")
        || same_text(l, "lock") || same_text(l, "unlock") || same_text(l, "lock-in") || same_text(
        l,
        "lock-out",
    ) {
        Ok(())
    } else {
        Err(
            message(
                "Invalid batch operation '",
                operation,
                "'. Valid operations: set-location, set-indoor, set-outdoor, lock, unlock, lock-in, lock-out",
            ),
        )
    }
}

pub open spec fn is_digit(c: char) -> bool {
    '0' <= c <= '9'
}

/// `H:MM` or `HH:MM` on a 24-hour clock: the hour 0 to 23, with or without a
/// leading zero below 10, and the minutes 00 to 59.
pub open spec fn is_clock_time(s: Seq<char>) -> bool {
    ||| s.len() == 4 && is_digit(s[0]) && s[1] == ':' && '0' <= s[2] <= '5' && is_digit(s[3])
    ||| s.len() == 5 && ((('0' <= s[0] <= '1') && is_digit(s[1])) || (s[0] == '2' && '0' <= s[1]
        <= '3')) && s[2] == ':' && '0' <= s[3] <= '5' && is_digit(s[4])
}

fn check_clock_time(time: &str) -> (r: bool)
    ensures
        r == is_clock_time(time@),
{
    let n = time.unicode_len();
    if n == 4 {
        let h = time.get_char(0);
        let c = time.get_char(1);
        let m1 = time.get_char(2);
        let m2 = time.get_char(3);
        '0' <= h && h <= '9' && c == ':' && '0' <= m1 && m1 <= '5' && '0' <= m2 && m2 <= '9'
    } else if n == 5 {
        let h1 = time.get_char(0);
        let h2 = time.get_char(1);
        let c = time.get_char(2);
        let m1 = time.get_char(3);
        let m2 = time.get_char(4);
        let hour_ok = ('0' <= h1 && h1 <= '1' && '0' <= h2 && h2 <= '9') || (h1 == '2' && '0' <= h2
            && h2 <= '3');
        hour_ok && c == ':' && '0' <= m1 && m1 <= '5' && '0' <= m2 && m2 <= '9'
    } else {
        false
    }
}

/// Accepts a time of day in `HH:MM` form (see `is_clock_time`).
pub fn validate_time_format(time: &str) -> (r: Result<(), String>)
    ensures
        is_clock_time(time@) ==> r is Ok,
        !is_clock_time(time@) ==> (r matches Err(m) && m@ == quoted_in(
            "Invalid time format '"@,
            time@,
            "'. Use HH:MM format (e.g., 22:00)"@,
        )),
{
    if check_clock_time(time) {
        Ok(())
    } else {
        Err(message("Invalid time format '", time, "'. Use HH:MM format (e.g., 22:00)"))
    }
}

/// The help text for an invalid use of `command`: the error, then examples of
/// the command where there are some.
pub open spec fn spec_help_examples(command: Seq<char>, error: Seq<char>) -> Seq<char> {
    if command == "set-location"@ {
        error
            + "\n\nExamples:\n  rusty_pet set-location \"Fluffy\" inside\n  rusty_pet set-location 123 outside"@
    } else if command == "lock"@ || command == "unlock"@ || command == "lock-in"@ || command == "lock-out"@ {
        error + "\n\nExamples:\n  rusty_pet "@ + command + " \"Pet Door\"\n  rusty_pet "@ + command
            + " 456"@
    } else if command == "feeding-history"@ || command == "drinking-history"@ || command
        == "activity-history"@ {
        error + "\n\nExamples:\n  rusty_pet "@ + command + " \"Fluffy\" --range today\n  rusty_pet "@
            + command + " 123 --range week\n  rusty_pet "@ + command
            + " \"Max\" --range 2024-01-01,2024-01-31"@
    } else if command == "export"@ {
        error
            + "\n\nExamples:\n  rusty_pet export --format csv --types pets,devices\n  rusty_pet export --format json --types feeding,drinking --range month --output data.json"@
    } else if command == "search-pets"@ {
        error
            + "\n\nExamples:\n  rusty_pet search-pets --name \"Flu\"\n  rusty_pet search-pets --location inside --active-since 24"@
    } else if command == "batch"@ {
        error
            + "\n\nExamples:\n  rusty_pet batch set-location \"Fluffy,Max\" --param inside\n  rusty_pet batch lock \"Door1,Door2\""@
    } else {
        error
    }
}

pub fn generate_help_examples(command: &str, error: &str) -> (r: String)
    ensures
        r@ == spec_help_examples(command@, error@),
{
    let mut r = String::from_str(error);
    if same_text(command, "set-location") {
        r.append(
            "\n\nExamples:\n  rusty_pet set-location \"Fluffy\" inside\n  rusty_pet set-location 123 outside",
        );
    } else if same_text(command, "lock") || same_text(command, "unlock") || same_text(command, "lock-in")
        || same_text(command, "lock-out") {
        r.append("\n\nExamples:\n  rusty_pet ");
        r.append(command);
        r.append(" \"Pet Door\"\n  rusty_pet ");
        r.append(command);
        r.append(" 456");
    } else if same_text(command, "feeding-history") || same_text(command, "drinking-history")
        || same_text(command, "activity-history") {
        r.append("\n\nExamples:\n  rusty_pet ");
        r.append(command);
        r.append(" \"Fluffy\" --range today\n  rusty_pet ");
        r.append(command);
        r.append(" 123 --range week\n  rusty_pet ");
        r.append(command);
        r.append(" \"Max\" --range 2024-01-01,2024-01-31");
    } else if same_text(command, "export") {
        r.append(
            "\n\nExamples:\n  rusty_pet export --format csv --types pets,devices\n  rusty_pet export --format json --types feeding,drinking --range month --output data.json",
        );
    } else if same_text(command, "search-pets") {
        r.append(
            "\n\nExamples:\n  rusty_pet search-pets --name \"Flu\"\n  rusty_pet search-pets --location inside --active-since 24",
        );
    } else if same_text(command, "batch") {
        r.append(
            "\n\nExamples:\n  rusty_pet batch set-location \"Fluffy,Max\" --param inside\n  rusty_pet batch lock \"Door1,Door2\"",
        );
    }
    r
}

} // verus!
