//! Which package manager a Linux system uses.

use vstd::prelude::*;
use crate::util::data_container::{DataContainer, DataValue};
use crate::util::text::{
    chars_contain, chars_of, is_blank, occurs_in, quote, str_eq, string_from_chars, trim, trim_bounds, trim_by,
    unquote_bounds,
};

verus! {

/// A package manager the engine knows.
#[derive(Debug, Clone, Copy, PartialEq, Eq, Structural)]
pub enum PackageManagerType {
    Apt,
    Dnf,
    Pacman,
}

/// The name of a package manager.
pub open spec fn package_manager_name(t: PackageManagerType) -> Seq<char> {
    match t {
        PackageManagerType::Apt => "apt"@,
        PackageManagerType::Dnf => "dnf"@,
        PackageManagerType::Pacman => "pacman"@,
    }
}

impl vstd::std_specs::convert::FromSpecImpl<PackageManagerType> for String {
    /// The conversion is described by the text it gives (see `from`), not
    /// by one particular `String` value.
    open spec fn obeys_from_spec() -> bool {
        false
    }

    open spec fn from_spec(v: PackageManagerType) -> String {
        choose|s: String| s@ == package_manager_name(v)
    }
}

impl From<PackageManagerType> for String {
    /// The package manager's name.
    fn from(value: PackageManagerType) -> (s: String)
        ensures
            s@ == package_manager_name(value),
    {
        match value {
            PackageManagerType::Apt => String::from_str("apt"),
            PackageManagerType::Dnf => String::from_str("dnf"),
            PackageManagerType::Pacman => String::from_str("pacman"),
        }
    }
}

impl vstd::std_specs::convert::FromSpecImpl<PackageManagerType> for DataContainer {
    /// The conversion is described by the value it gives (see `from`).
    open spec fn obeys_from_spec() -> bool {
        false
    }

    open spec fn from_spec(v: PackageManagerType) -> DataContainer {
        choose|d: DataContainer| d@ == DataValue::Text(package_manager_name(v))
    }
}

impl From<PackageManagerType> for DataContainer {
    /// The package manager's name, as a value.
    fn from(value: PackageManagerType) -> (d: DataContainer)
        ensures
            d@ == DataValue::Text(package_manager_name(value)),
    {
        DataContainer::Text(String::from(value))
    }
}

/// The package manager with the given name, if the engine knows it.
pub open spec fn package_manager_named(name: Seq<char>) -> Option<PackageManagerType> {
    if name == "apt"@ {
        Some(PackageManagerType::Apt)
    } else if name == "dnf"@ {
        Some(PackageManagerType::Dnf)
    } else if name == "pacman"@ {
        Some(PackageManagerType::Pacman)
    } else {
        None
    }
}

impl vstd::std_specs::convert::TryFromSpecImpl<&str> for PackageManagerType {
    open spec fn obeys_try_from_spec() -> bool {
        true
    }

    open spec fn try_from_spec(v: &str) -> Result<PackageManagerType, ()> {
        match package_manager_named(v@) {
            Some(t) => Ok(t),
            None => Err(()),
        }
    }
}

impl TryFrom<&str> for PackageManagerType {
    type Error = ();

    /// The package manager with the given name.
    fn try_from(value: &str) -> (r: Result<PackageManagerType, ()>) {
        if str_eq(value, "apt") {
            Ok(PackageManagerType::Apt)
        } else if str_eq(value, "dnf") {
            Ok(PackageManagerType::Dnf)
        } else if str_eq(value, "pacman") {
            Ok(PackageManagerType::Pacman)
        } else {
            Err(())
        }
    }
}

/// The package manager with the given name, if the engine knows it.
pub fn package_manager_from_name(value: &str) -> (r: Option<PackageManagerType>)
    ensures
        r == package_manager_named(value@),
{
    match PackageManagerType::try_from(value) {
        Ok(t) => Some(t),
        Err(_) => None,
    }
}

/// A package the user installed.
#[derive(Debug, Clone, PartialEq)]
pub struct Package {
    name: String,
    version: String,
}

/// The system's package manager and the packages the user installed with it.
#[derive(Debug, Clone, PartialEq)]
pub struct PackageManager {
    pub manager_type: Option<PackageManagerType>,
    user_packages: Vec<Package>,
}

impl PackageManager {
    /// The kind of package manager.
    pub closed spec fn kind(&self) -> Option<PackageManagerType> {
        self.manager_type
    }

    /// How many user packages are known.
    pub closed spec fn known_packages(&self) -> nat {
        self.user_packages@.len()
    }

    /// A package manager of the detected kind, with no packages read yet.
    pub fn new(manager_type: Option<PackageManagerType>) -> (m: Self)
        ensures
            m.kind() == manager_type,
            m.known_packages() == 0,
    {
        PackageManager { manager_type, user_packages: Vec::new() }
    }

    /// How many user packages are known.
    pub fn package_count(&self) -> (n: usize)
        ensures
            n == self.known_packages(),
    {
        self.user_packages.len()
    }
}

/// A rule that recognizes a distribution by its name: when the lower-cased
/// name contains one of the texts, the system uses the named package
/// manager.
#[derive(Debug, Clone, PartialEq)]
pub struct PackageManagerOsNameRule {
    pub contains: Vec<String>,
    pub package_manager: String,
}

/// A rule that recognizes a package manager by running it: when the program
/// runs and prints something, the system uses the named package manager.
#[derive(Debug, Clone, PartialEq)]
pub struct PackageManagerCommandRule {
    pub program: String,
    pub args: Vec<String>,
    pub package_manager: String,
}

/// The rules, tried in order: first by the distribution's name, then by
/// running programs.
#[derive(Debug, Clone, PartialEq)]
pub struct PackageManagerConfig {
    pub os_name: Vec<PackageManagerOsNameRule>,
    pub command: Vec<PackageManagerCommandRule>,
}

/// The lower-case form of a text, as `str::to_lowercase` gives it.
pub uninterp spec fn lowercase(s: Seq<char>) -> Seq<char>;

/// Whether every character of a text is ASCII.
pub open spec fn is_ascii_text(s: Seq<char>) -> bool {
    forall|i: int| 0 <= i < s.len() ==> (#[trigger] s[i] as int) < 128
}

/// An ASCII letter in lower case; any other character as it is.
pub open spec fn ascii_lower_char(c: char) -> char {
    if 'A' <= c && c <= 'Z' {
        ((c as int) + 32) as char
    } else {
        c
    }
}

/// An ASCII letter in upper case; any other character as it is.
pub open spec fn ascii_upper_char(c: char) -> char {
    if 'a' <= c && c <= 'z' {
        ((c as int) - 32) as char
    } else {
        c
    }
}

/// A text with its ASCII letters in lower case.
pub open spec fn ascii_lowered(s: Seq<char>) -> Seq<char> {
    Seq::new(s.len(), |i: int| ascii_lower_char(s[i]))
}

/// A text with its ASCII letters in upper case.
pub open spec fn ascii_uppered(s: Seq<char>) -> Seq<char> {
    Seq::new(s.len(), |i: int| ascii_upper_char(s[i]))
}

/// Lower-cases a text with std's `str::to_lowercase`. The contract claims
/// that the result depends on the text alone, left to the name `lowercase`,
/// and, as std documents for the ASCII range, that an ASCII text has its
/// letters `A` to `Z` mapped to `a` to `z` and every other character kept.
#[verifier::external_body]
fn to_lowercase(s: &str) -> (r: String)
    ensures
        r@ == lowercase(s@),
        is_ascii_text(s@) ==> r@ == ascii_lowered(s@),
{
    s.to_lowercase()
}

/// Whether a distribution's lower-cased name contains one of a rule's texts.
pub open spec fn rule_matches(rule: PackageManagerOsNameRule, name: Seq<char>) -> bool {
    exists|j: int| 0 <= j < rule.contains@.len() && occurs_in(name, #[trigger] rule.contains@[j]@)
}

/// The package manager that the first matching rule, with a known package
/// manager, names.
pub open spec fn os_rules_result(rules: Seq<PackageManagerOsNameRule>, name: Seq<char>) -> Option<PackageManagerType>
    decreases rules.len(),
{
    if rules.len() == 0 {
        None
    } else if rule_matches(rules[0], name) && package_manager_named(rules[0].package_manager@) is Some {
        package_manager_named(rules[0].package_manager@)
    } else {
        os_rules_result(rules.drop_first(), name)
    }
}

fn rule_matches_exec(rule: &PackageManagerOsNameRule, name: &Vec<char>) -> (r: bool)
    ensures
        r == rule_matches(*rule, name@),
{
    let mut j: usize = 0;
    while j < rule.contains.len()
        invariant
            j <= rule.contains@.len(),
            forall|k: int| 0 <= k < j ==> !occurs_in(name@, #[trigger] rule.contains@[k]@),
        decreases rule.contains@.len() - j,
    {
        let needle = chars_of(rule.contains[j].as_str());
        if chars_contain(name, &needle) {
            return true;
        }
        j = j + 1;
    }
    false
}

/// The package manager a distribution's name points to (case does not
/// matter).
pub fn detect_package_manager_by_os_name(config: &PackageManagerConfig, os_name: &str) -> (r: Option<PackageManagerType>)
    ensures
        r == os_rules_result(config.os_name@, lowercase(os_name@)),
        is_ascii_text(os_name@) ==> r == os_rules_result(config.os_name@, ascii_lowered(os_name@)),
{
    let lower = to_lowercase(os_name);
    let name = chars_of(lower.as_str());
    let mut i: usize = 0;
    assert(config.os_name@.skip(0) =~= config.os_name@);
    while i < config.os_name.len()
        invariant
            name@ == lowercase(os_name@),
            is_ascii_text(os_name@) ==> name@ == ascii_lowered(os_name@),
            i <= config.os_name@.len(),
            os_rules_result(config.os_name@, name@) == os_rules_result(config.os_name@.skip(i as int), name@),
        decreases config.os_name@.len() - i,
    {
        let rule = &config.os_name[i];
        assert(config.os_name@.skip(i as int)[0] == config.os_name@[i as int]);
        assert(config.os_name@.skip(i as int).drop_first() =~= config.os_name@.skip(i + 1));
        if rule_matches_exec(rule, &name) {
            let found = package_manager_from_name(rule.package_manager.as_str());
            if found.is_some() {
                return found;
            }
        }
        i = i + 1;
    }
    None
}

/// What detection does next: it has its answer, or it asks for the output
/// of the command rule with the given index.
#[derive(Debug, Clone, Copy, PartialEq, Eq, Structural)]
pub enum DetectionStep {
    Detected(Option<PackageManagerType>),
    RunCommand(usize),
}

/// Detection by running programs, once the outputs of the first rules'
/// programs are known (`None` when one could not be run or read): the first
/// program that printed more than white space decides; when none did and
/// rules remain, the next rule's program is to be run.
pub open spec fn command_step(
    rules: Seq<PackageManagerCommandRule>,
    outputs: Seq<Option<String>>,
    i: int,
) -> DetectionStep
    decreases outputs.len() - i,
{
    if i < 0 || i >= outputs.len() || i >= rules.len() {
        if outputs.len() < rules.len() {
            DetectionStep::RunCommand(outputs.len() as usize)
        } else {
            DetectionStep::Detected(None)
        }
    } else if outputs[i] matches Some(o) && !is_blank(o@) {
        DetectionStep::Detected(package_manager_named(rules[i].package_manager@))
    } else {
        command_step(rules, outputs, i + 1)
    }
}

/// Decides detection by running programs from the outputs gathered so far,
/// in rule order.
pub fn detect_package_manager_by_command(config: &PackageManagerConfig, outputs: &Vec<Option<String>>) -> (r: DetectionStep)
    ensures
        r == command_step(config.command@, outputs@, 0),
{
    let mut i: usize = 0;
    while i < outputs.len() && i < config.command.len()
        invariant
            i <= outputs@.len(),
            command_step(config.command@, outputs@, 0) == command_step(config.command@, outputs@, i as int),
        decreases outputs@.len() - i,
    {
        match &outputs[i] {
            Some(o) => {
                let chars = chars_of(o.as_str());
                let mut k: usize = 0;
                while k < chars.len() && crate::util::text::char_is_white_space(chars[k])
                    invariant
                        chars@ == o@,
                        k <= chars@.len(),
                        forall|q: int| 0 <= q < k ==> crate::util::text::is_white_space(#[trigger] chars@[q]),
                    decreases chars@.len() - k,
                {
                    k = k + 1;
                }
                if k < chars.len() {
                    assert(!crate::util::text::is_white_space(chars@[k as int]));
                    return DetectionStep::Detected(package_manager_from_name(config.command[i].package_manager.as_str()));
                }
            },
            None => {},
        }
        i = i + 1;
    }
    if outputs.len() < config.command.len() {
        DetectionStep::RunCommand(outputs.len())
    } else {
        DetectionStep::Detected(None)
    }
}

/// Detects the system's package manager: by the distribution's name when it
/// is known and a rule recognizes it, else by running programs.
pub open spec fn seek_step(
    config: PackageManagerConfig,
    os_name: Option<Seq<char>>,
    outputs: Seq<Option<String>>,
) -> DetectionStep {
    match os_name {
        Some(n) => match os_rules_result(config.os_name@, lowercase(n)) {
            Some(t) => DetectionStep::Detected(Some(t)),
            None => command_step(config.command@, outputs, 0),
        },
        None => command_step(config.command@, outputs, 0),
    }
}

/// Detects the system's package manager from the distribution's name (as
/// `/etc/os-release` gives it) and the outputs of the rules' programs run so
/// far.
pub fn seek_packager_manager_type(
    config: &PackageManagerConfig,
    os_name: Option<&str>,
    outputs: &Vec<Option<String>>,
) -> (r: DetectionStep)
    ensures
        r == seek_step(*config, match os_name { Some(n) => Some(n@), None => None }, outputs@),
{
    if let Some(name) = os_name {
        if let Some(t) = detect_package_manager_by_os_name(config, name) {
            return DetectionStep::Detected(Some(t));
        }
    }
    detect_package_manager_by_command(config, outputs)
}

impl PackageManager {
    /// The system's package manager, once detection has its answer (see
    /// `seek_packager_manager_type`), with no packages read yet; `Err(k)`
    /// while the program of command rule `k` still has to be run.
    pub fn detect(
        config: &PackageManagerConfig,
        os_name: Option<&str>,
        outputs: &Vec<Option<String>>,
    ) -> (r: Result<PackageManager, usize>)
        ensures
            match seek_step(*config, match os_name { Some(n) => Some(n@), None => None }, outputs@) {
                DetectionStep::Detected(t) => r matches Ok(m) && m.kind() == t && m.known_packages() == 0,
                DetectionStep::RunCommand(k) => r == Err::<PackageManager, usize>(k),
            },
    {
        match seek_packager_manager_type(config, os_name, outputs) {
            DetectionStep::Detected(t) => Ok(PackageManager::new(t)),
            DetectionStep::RunCommand(k) => Err(k),
        }
    }
}

proof fn lemma_command_step_asks_next(rules: Seq<PackageManagerCommandRule>, outputs: Seq<Option<String>>, i: int, k: usize)
    requires
        0 <= i,
        outputs.len() <= usize::MAX,
        command_step(rules, outputs, i) == DetectionStep::RunCommand(k),
    ensures
        k == outputs.len(),
        outputs.len() < rules.len(),
    decreases outputs.len() - i,
{
    if !(i >= outputs.len() || i >= rules.len()) {
        if !(outputs[i] matches Some(o) && !is_blank(o@)) {
            lemma_command_step_asks_next(rules, outputs, i + 1, k);
        }
    }
}

proof fn lemma_command_step_settled(
    rules: Seq<PackageManagerCommandRule>,
    outputs: Seq<Option<String>>,
    more: Seq<Option<String>>,
    i: int,
)
    requires
        0 <= i,
        command_step(rules, outputs, i) is Detected,
    ensures
        command_step(rules, outputs + more, i) == command_step(rules, outputs, i),
    decreases outputs.len() - i,
{
    let all = outputs + more;
    if i >= outputs.len() || i >= rules.len() {
        assert(outputs.len() >= rules.len());
    } else {
        assert(all[i] == outputs[i]);
        if !(outputs[i] matches Some(o) && !is_blank(o@)) {
            lemma_command_step_settled(rules, outputs, more, i + 1);
        }
    }
}

/// The whole detection run: a name that a rule recognizes decides before any
/// program runs; otherwise the programs of the command rules run one after
/// another, in rule order, each asked for only once the outputs of the
/// earlier ones are in; and once detection has its answer, outputs of
/// further programs change nothing.
pub proof fn law_detection_run(
    config: PackageManagerConfig,
    os_name: Option<Seq<char>>,
    outputs: Seq<Option<String>>,
    more: Seq<Option<String>>,
)
    requires
        outputs.len() <= usize::MAX,
    ensures
        (os_name matches Some(n) && os_rules_result(config.os_name@, lowercase(n)) is Some)
            ==> seek_step(config, os_name, outputs)
                == DetectionStep::Detected(os_rules_result(config.os_name@, lowercase(os_name->0))),
        seek_step(config, os_name, outputs) matches DetectionStep::RunCommand(k)
            ==> k == outputs.len() && k < config.command@.len(),
        seek_step(config, os_name, outputs) is Detected
            ==> seek_step(config, os_name, outputs + more) == seek_step(config, os_name, outputs),
{
    match seek_step(config, os_name, outputs) {
        DetectionStep::RunCommand(k) => {
            lemma_command_step_asks_next(config.command@, outputs, 0, k);
        },
        _ => {},
    }
    if command_step(config.command@, outputs, 0) is Detected {
        lemma_command_step_settled(config.command@, outputs, more, 0);
    }
}

/// Where the line that starts at `start` ends: at the next line feed, or at
/// the end of the text.
pub open spec fn line_end(s: Seq<char>, start: int) -> int
    decreases s.len() - start,
{
    if start < 0 || start >= s.len() {
        s.len() as int
    } else if s[start] == '\n' {
        start
    } else {
        line_end(s, start + 1)
    }
}

/// The distribution's name that one line of `/etc/os-release` gives: the
/// line, trimmed, must start with `NAME=`; the rest, trimmed and without
/// surrounding quotes, is the name.
pub open spec fn name_in_line(line: Seq<char>) -> Option<Seq<char>> {
    let t = trim(line);
    if t.len() >= 5 && t.take(5) == "NAME="@ {
        Some(trim_by(trim(t.skip(5)), quote()))
    } else {
        None
    }
}

/// The name given by the first line, at or after the line that starts at
/// `start`, that gives one.
pub open spec fn os_name_from(content: Seq<char>, start: int) -> Option<Seq<char>>
    decreases content.len() - start,
{
    if start < 0 || start > content.len() {
        None
    } else {
        let end = line_end(content, start);
        match name_in_line(content.subrange(start, end)) {
            Some(v) => Some(v),
            None => if end >= content.len() {
                None
            } else {
                proof {
                    lemma_line_end_bounds(content, start);
                }
                os_name_from(content, end + 1)
            },
        }
    }
}

/// A line ends at or after its start, before any line feed inside it.
pub proof fn lemma_line_end_bounds(s: Seq<char>, start: int)
    requires
        0 <= start <= s.len(),
    ensures
        start <= line_end(s, start) <= s.len(),
        forall|i: int| start <= i < line_end(s, start) ==> s[i] != '\n',
        line_end(s, start) < s.len() ==> s[line_end(s, start)] == '\n',
    decreases s.len() - start,
{
    if start < s.len() && s[start] != '\n' {
        lemma_line_end_bounds(s, start + 1);
    }
}

proof fn lemma_line_end_from(s: Seq<char>, start: int, k: int)
    requires
        0 <= start <= k <= s.len(),
        forall|i: int| start <= i < k ==> s[i] != '\n',
    ensures
        line_end(s, start) == line_end(s, k),
    decreases k - start,
{
    if start < k {
        lemma_line_end_from(s, start + 1, k);
    }
}

/// The distribution's name in the text of `/etc/os-release`: the first line
/// of the form `NAME=...`.
pub fn get_os_name(content: &str) -> (r: Option<String>)
    ensures
        match r {
            Some(n) => os_name_from(content@, 0) == Some(n@),
            None => os_name_from(content@, 0) is None,
        },
{
    let v = chars_of(content);
    let n = v.len();
    let mut start: usize = 0;
    while start <= n
        invariant
            v@ == content@,
            n == v@.len(),
            start <= n + 1,
            start <= n ==> os_name_from(content@, 0) == os_name_from(content@, start as int),
            start > n ==> os_name_from(content@, 0) is None,
        decreases n + 1 - start,
    {
        let mut end = start;
        while end < n && v[end] != '\n'
            invariant
                v@ == content@,
                n == v@.len(),
                start <= end <= n,
                forall|i: int| start <= i < end ==> v@[i] != '\n',
            decreases n - end,
        {
            end = end + 1;
        }
        proof {
            lemma_line_end_from(v@, start as int, end as int);
            if end < n {
                assert(line_end(v@, end as int) == end);
            }
            assert(line_end(v@, start as int) == end);
        }
        let (a, b) = trim_bounds(&v, start, end);
        let ghost t = trim(v@.subrange(start as int, end as int));
        if b - a >= 5 && v[a] == 'N' && v[a + 1] == 'A' && v[a + 2] == 'M' && v[a + 3] == 'E' && v[a + 4] == '=' {
            proof {
                reveal_strlit("NAME=");
                assert(t.take(5) =~= "NAME="@);
                assert(t.skip(5) =~= v@.subrange(a + 5, b as int));
            }
            let (c, d) = trim_bounds(&v, a + 5, b);
            let (e, f) = unquote_bounds(&v, c, d);
            let mut name: Vec<char> = Vec::new();
            let mut k = e;
            while k < f
                invariant
                    e <= k <= f <= v@.len(),
                    name@ == v@.subrange(e as int, k as int),
                decreases f - k,
            {
                name.push(v[k]);
                k = k + 1;
            }
            return Some(string_from_chars(name.as_slice()));
        }
        proof {
            if t.len() >= 5 && t.take(5) == "NAME="@ {
                reveal_strlit("NAME=");
                assert(t[0] == t.take(5)[0] && t[1] == t.take(5)[1] && t[2] == t.take(5)[2]);
                assert(t[3] == t.take(5)[3] && t[4] == t.take(5)[4]);
                assert(t[0] == v@[a as int] && t[1] == v@[a + 1] && t[2] == v@[a + 2]);
                assert(t[3] == v@[a + 3] && t[4] == v@[a + 4]);
                assert(false);
            }
        }
        if end == n {
            return None;
        }
        start = end + 1;
    }
    None
}


/// A package manager's name reads back as that package manager.
pub proof fn law_package_manager_name_round_trip(t: PackageManagerType)
    ensures
        package_manager_named(package_manager_name(t)) == Some(t),
{
    reveal_strlit("apt");
    reveal_strlit("dnf");
    reveal_strlit("pacman");
    assert("apt"@ != "dnf"@) by {
        assert("apt"@[0] != "dnf"@[0]);
    }
    assert("apt"@.len() != "pacman"@.len());
    assert("dnf"@.len() != "pacman"@.len());
}


/// Case does not matter to detection by name: an ASCII name and its
/// upper-case form lower-case to the same text, so every rule set gives
/// both the same package manager.
pub proof fn law_os_name_case_does_not_matter(rules: Seq<PackageManagerOsNameRule>, name: Seq<char>)
    requires
        is_ascii_text(name),
    ensures
        is_ascii_text(ascii_uppered(name)),
        ascii_lowered(ascii_uppered(name)) == ascii_lowered(name),
        os_rules_result(rules, ascii_lowered(ascii_uppered(name))) == os_rules_result(rules, ascii_lowered(name)),
{
    let u = ascii_uppered(name);
    assert forall|i: int| 0 <= i < u.len() implies (#[trigger] u[i] as int) < 128 by {
        assert((name[i] as int) < 128);
    }
    assert forall|i: int| 0 <= i < name.len() implies ascii_lower_char(#[trigger] u[i]) == ascii_lower_char(name[i]) by {
        let c = name[i];
        assert((c as int) < 128);
    }
    assert(ascii_lowered(u) =~= ascii_lowered(name));
}

} // verus!
