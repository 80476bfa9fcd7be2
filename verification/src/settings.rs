//! The configuration model: named browser commands, ordered routing rules
//! with precompiled patterns, and the default browser name.

use vstd::prelude::*;
use vstd::string::StringExecFns;
use crate::pattern::{pattern_compiles, regex_pattern, regex_matches, compile_pattern,
    regex_is_match};
use crate::util::{join_strings, spec_join};

verus! {

/// The shape of one browser definition, at specification level.
pub ghost enum CommandShape {
    /// Simple form: just the executable path.
    Simple { path: Seq<char> },
    /// Detailed form: the path plus extra arguments, in order.
    Detailed { path: Seq<char>, args: Seq<Seq<char>> },
}

/// Defines the configuration for a single browser.
///
/// The simple form is a bare executable path; the detailed form carries the
/// path together with extra arguments placed before the URL at launch.
#[derive(Debug)]
pub enum BrowserConfig {
    /// Simple form: just the command path as a string.
    Simple(String),
    /// Detailed form: structured path plus arguments.
    Detailed { path: String, args: Vec<String> },
}

impl View for BrowserConfig {
    type V = CommandShape;

    open spec fn view(&self) -> CommandShape {
        match self {
            BrowserConfig::Simple(path) => CommandShape::Simple { path: path@ },
            BrowserConfig::Detailed { path, args } => CommandShape::Detailed {
                path: path@,
                args: args.deep_view(),
            },
        }
    }
}

/// The diagnostic rendering of one browser command: the path alone for the
/// simple form; the path, a space, and the space-joined arguments for the
/// detailed form.
pub open spec fn spec_render_command(shape: CommandShape) -> Seq<char> {
    match shape {
        CommandShape::Simple { path } => path,
        CommandShape::Detailed { path, args } => path + " "@ + spec_join(args, " "@),
    }
}

impl BrowserConfig {
    /// Renders the command for diagnostics.
    pub fn render(&self) -> (r: String)
        ensures
            r@ == spec_render_command(self@),
    {
        match self {
            BrowserConfig::Simple(path) => path.clone(),
            BrowserConfig::Detailed { path, args } => {
                let mut s = path.clone();
                s.append(" ");
                let joined = join_strings(args, " ");
                s.append(joined.as_str());
                proof {
                    assert(s@ =~= path@ + " "@ + spec_join(args.deep_view(), " "@));
                }
                s
            },
        }
    }
}

/// What a rule contributes to the routing decision: its pattern text and the
/// name of the browser it selects.
pub ghost struct RuleSpec {
    pub pattern: Seq<char>,
    pub browser: Seq<char>,
}

/// A routing rule: a regular-expression pattern, compiled once at
/// construction, and the browser name to use when the pattern matches.
pub struct Rule {
    pattern: String,
    regex: regex::Regex,
    browser: String,
}

impl Rule {
    #[verifier::type_invariant]
    spec fn wf(self) -> bool {
        &&& pattern_compiles(self.pattern@)
        &&& regex_pattern(self.regex) == self.pattern@
    }
}

impl View for Rule {
    type V = RuleSpec;

    closed spec fn view(&self) -> RuleSpec {
        RuleSpec { pattern: self.pattern@, browser: self.browser@ }
    }
}

/// The diagnostic rendering of a rule: `<pattern> => <browser>`.
pub open spec fn spec_render_rule(r: RuleSpec) -> Seq<char> {
    r.pattern + " => "@ + r.browser
}

/// Why configuration construction failed.
#[derive(Debug)]
pub enum ConfigError {
    /// A rule's pattern is not a valid regular expression; carries the
    /// offending pattern text.
    InvalidPattern(String),
    /// Two browser entries share a name; carries the repeated name.
    DuplicateBrowser(String),
}

impl Rule {
    /// Compiles `pattern` and pairs it with `browser`.  Fails exactly when
    /// the pattern is not a valid regular expression, and then returns the
    /// offending pattern.
    pub fn new(pattern: String, browser: String) -> (r: Result<Rule, ConfigError>)
        ensures
            r is Ok <==> pattern_compiles(pattern@),
            r matches Ok(rule) ==> rule@ == (RuleSpec { pattern: pattern@, browser: browser@ }),
            r matches Err(e) ==> e matches ConfigError::InvalidPattern(p) && p@ == pattern@,
    {
        match compile_pattern(pattern.as_str()) {
            Some(re) => Ok(Rule { pattern, regex: re, browser }),
            None => Err(ConfigError::InvalidPattern(pattern)),
        }
    }

    /// The pattern text this rule was built from.
    pub fn pattern(&self) -> (r: &String)
        ensures
            r@ == self@.pattern,
    {
        &self.pattern
    }

    /// The browser name this rule selects.
    pub fn browser(&self) -> (r: &String)
        ensures
            r@ == self@.browser,
    {
        &self.browser
    }

    /// Renders the rule for diagnostics.
    pub fn render(&self) -> (out: String)
        ensures
            out@ == spec_render_rule(self@),
    {
        let mut s = self.pattern.clone();
        s.append(" => ");
        s.append(self.browser.as_str());
        s
    }

    /// True iff the rule's pattern matches anywhere inside `url`.
    pub fn matches(&self, url: &str) -> (b: bool)
        ensures
            b == regex_matches(self@.pattern, url@),
    {
        proof {
            use_type_invariant(self);
        }
        regex_is_match(&self.regex, url)
    }
}

/// The whole configuration, at specification level: the default browser
/// name, the browser entries in declaration order, and the rules in order.
pub ghost struct SettingsSpec {
    pub default: Seq<char>,
    pub browsers: Seq<(Seq<char>, CommandShape)>,
    pub rules: Seq<RuleSpec>,
}

impl SettingsSpec {
    /// The browser entries as a name-keyed map; well defined as a lookup
    /// table whenever the names are unique.
    pub open spec fn browser_map(self) -> Map<Seq<char>, CommandShape> {
        map_of(self.browsers)
    }
}

/// No two entries share a name.
pub open spec fn unique_names(bs: Seq<(Seq<char>, CommandShape)>) -> bool {
    forall|i: int, j: int| 0 <= i < j < bs.len() ==> bs[i].0 != bs[j].0
}

/// The entry sequence folded into a map, later entries winning.
pub open spec fn map_of(bs: Seq<(Seq<char>, CommandShape)>) -> Map<Seq<char>, CommandShape>
    decreases bs.len(),
{
    if bs.len() == 0 {
        Map::empty()
    } else {
        map_of(bs.drop_last()).insert(bs.last().0, bs.last().1)
    }
}

/// A name is a key of the entry map exactly when some entry carries it.
pub proof fn lemma_map_of_dom(bs: Seq<(Seq<char>, CommandShape)>, k: Seq<char>)
    ensures
        map_of(bs).dom().contains(k) <==> exists|i: int| 0 <= i < bs.len() && bs[i].0 == k,
    decreases bs.len(),
{
    if bs.len() > 0 {
        lemma_map_of_dom(bs.drop_last(), k);
        if bs.last().0 == k {
            assert(bs[bs.len() - 1].0 == k);
        } else if exists|i: int| 0 <= i < bs.len() && bs[i].0 == k {
            let i = choose|i: int| 0 <= i < bs.len() && bs[i].0 == k;
            assert(bs.drop_last()[i] == bs[i]);
        }
    }
}

/// With unique names, each entry is the one the map associates with its name.
pub proof fn lemma_map_of_index(bs: Seq<(Seq<char>, CommandShape)>, i: int)
    requires
        unique_names(bs),
        0 <= i < bs.len(),
    ensures
        map_of(bs).dom().contains(bs[i].0),
        map_of(bs)[bs[i].0] == bs[i].1,
    decreases bs.len(),
{
    if i == bs.len() - 1 {
    } else {
        assert(unique_names(bs.drop_last()));
        assert(bs.drop_last()[i] == bs[i]);
        lemma_map_of_index(bs.drop_last(), i);
    }
}

/// A rule as it arrives from the configuration source, before its pattern is
/// compiled.
pub struct RawRule {
    /// The regular-expression text to match against the URL.
    pub pattern: String,
    /// The name of the browser to use when the pattern matches.
    pub browser: String,
}

/// The name/config pairs, viewed.
pub open spec fn pairs_view(bs: Seq<(String, BrowserConfig)>) -> Seq<(Seq<char>, CommandShape)> {
    bs.map_values(|p: (String, BrowserConfig)| (p.0@, p.1@))
}

/// The raw rules, viewed as pattern/browser pairs.
pub open spec fn raw_rules_view(rs: Seq<RawRule>) -> Seq<RuleSpec> {
    rs.map_values(|r: RawRule| RuleSpec { pattern: r.pattern@, browser: r.browser@ })
}

/// The compiled rules, viewed.
pub open spec fn rules_view(rs: Seq<Rule>) -> Seq<RuleSpec> {
    rs.map_values(|r: Rule| r@)
}

/// Every raw rule's pattern is a valid regular expression.
pub open spec fn all_patterns_compile(rs: Seq<RuleSpec>) -> bool {
    forall|i: int| 0 <= i < rs.len() ==> pattern_compiles(#[trigger] rs[i].pattern)
}

/// Some two entries share the name `n`.
pub open spec fn repeated_name(bs: Seq<(Seq<char>, CommandShape)>, n: Seq<char>) -> bool {
    exists|i: int, j: int| 0 <= i < j < bs.len() && bs[i].0 == n && bs[j].0 == n
}

/// The root configuration: the default browser name, the named browser
/// commands, and the ordered routing rules.
pub struct Settings {
    default: String,
    browsers: Vec<(String, BrowserConfig)>,
    rules: Vec<Rule>,
}

impl Settings {
    #[verifier::type_invariant]
    spec fn wf(self) -> bool {
        unique_names(pairs_view(self.browsers@))
    }
}

impl View for Settings {
    type V = SettingsSpec;

    closed spec fn view(&self) -> SettingsSpec {
        SettingsSpec {
            default: self.default@,
            browsers: pairs_view(self.browsers@),
            rules: rules_view(self.rules@),
        }
    }
}

impl Settings {
    /// Builds the configuration from already-decoded raw data: checks that
    /// browser names are unique, compiles every rule pattern in order, and
    /// fails fast on the first violation.
    pub fn new(default: String, browsers: Vec<(String, BrowserConfig)>, rules: Vec<RawRule>) -> (r:
        Result<Settings, ConfigError>)
        ensures
            r is Ok <==> unique_names(pairs_view(browsers@)) && all_patterns_compile(
                raw_rules_view(rules@),
            ),
            r matches Ok(s) ==> s@ == (SettingsSpec {
                default: default@,
                browsers: pairs_view(browsers@),
                rules: raw_rules_view(rules@),
            }),
            r matches Err(e) ==> (match e {
                ConfigError::DuplicateBrowser(n) => repeated_name(pairs_view(browsers@), n@),
                ConfigError::InvalidPattern(p) => unique_names(pairs_view(browsers@))
                    && exists|i: int|
                    {
                        &&& 0 <= i < rules@.len()
                        &&& #[trigger] raw_rules_view(rules@)[i].pattern == p@
                        &&& !pattern_compiles(p@)
                        &&& forall|j: int|
                            0 <= j < i ==> pattern_compiles(
                                #[trigger] raw_rules_view(rules@)[j].pattern,
                            )
                    },
            }),
    {
        let n = browsers.len();
        for i in 0..n
            invariant
                n == browsers@.len(),
                forall|a: int, b: int| 0 <= a < b < browsers@.len() && a < i ==> pairs_view(
                    browsers@,
                )[a].0 != pairs_view(browsers@)[b].0,
        {
            for j in i + 1..n
                invariant
                    n == browsers@.len(),
                    i < n,
                    forall|a: int, b: int| 0 <= a < b < browsers@.len() && a < i ==> pairs_view(
                        browsers@,
                    )[a].0 != pairs_view(browsers@)[b].0,
                    forall|b: int| i < b < j ==> pairs_view(browsers@)[i as int].0 != pairs_view(
                        browsers@,
                    )[b].0,
            {
                if browsers[i].0 == browsers[j].0 {
                    proof {
                        assert(pairs_view(browsers@)[i as int].0 == browsers@[i as int].0@);
                        assert(pairs_view(browsers@)[j as int].0 == browsers@[j as int].0@);
                        assert(repeated_name(pairs_view(browsers@), browsers@[i as int].0@));
                        assert(!unique_names(pairs_view(browsers@)));
                    }
                    return Err(ConfigError::DuplicateBrowser(browsers[i].0.clone()));
                }
            }
        }
        let mut compiled: Vec<Rule> = Vec::new();
        let m = rules.len();
        for k in 0..m
            invariant
                m == rules@.len(),
                compiled@.len() == k,
                forall|a: int| 0 <= a < k ==> rules_view(compiled@)[a] == raw_rules_view(rules@)[a],
                forall|a: int| 0 <= a < k ==> pattern_compiles(
                    #[trigger] raw_rules_view(rules@)[a].pattern,
                ),
                unique_names(pairs_view(browsers@)),
        {
            match Rule::new(rules[k].pattern.clone(), rules[k].browser.clone()) {
                Ok(rule) => {
                    compiled.push(rule);
                },
                Err(e) => {
                    proof {
                        assert(raw_rules_view(rules@)[k as int].pattern == rules@[
                            k as int
                        ].pattern@);
                        assert(!pattern_compiles(raw_rules_view(rules@)[k as int].pattern));
                    }
                    return Err(e);
                },
            }
        }
        proof {
            assert(rules_view(compiled@) =~= raw_rules_view(rules@));
            assert(all_patterns_compile(raw_rules_view(rules@)));
        }
        Ok(Settings { default, browsers, rules: compiled })
    }

    /// The configured default browser name.
    pub fn default_browser(&self) -> (r: &String)
        ensures
            r@ == self@.default,
    {
        &self.default
    }

    /// The browser entries, in declaration order, with unique names.
    pub fn browsers(&self) -> (r: &Vec<(String, BrowserConfig)>)
        ensures
            pairs_view(r@) == self@.browsers,
            unique_names(self@.browsers),
    {
        proof {
            use_type_invariant(self);
        }
        &self.browsers
    }

    /// The routing rules, in declaration order.
    pub fn rules(&self) -> (r: &Vec<Rule>)
        ensures
            rules_view(r@) == self@.rules,
    {
        &self.rules
    }

    /// Renders the whole configuration for diagnostics: the default name,
    /// each browser command, and each rule, in declaration order.
    pub fn render(&self) -> (out: String)
        ensures
            out@ == spec_render_settings(self@),
    {
        let mut s = String::from_str("Settings { default: ");
        s.append(self.default.as_str());
        s.append(", browsers: [");
        let mut browser_parts: Vec<String> = Vec::new();
        let n = self.browsers.len();
        for i in 0..n
            invariant
                n == self.browsers@.len(),
                browser_parts@.len() == i,
                forall|j: int| 0 <= j < i ==> browser_parts@[j]@ == spec_render_command(
                    #[trigger] pairs_view(self.browsers@)[j].1,
                ),
        {
            proof {
                let gi = i as int;
                assert(pairs_view(self.browsers@)[gi] == (self.browsers@[gi].0@, self.browsers@[
                    gi
                ].1@));
            }
            browser_parts.push(self.browsers[i].1.render());
        }
        let joined_browsers = join_strings(&browser_parts, ", ");
        proof {
            assert(browser_parts.deep_view() =~= self@.browsers.map_values(
                |p: (Seq<char>, CommandShape)| spec_render_command(p.1),
            ));
        }
        s.append(joined_browsers.as_str());
        s.append("], rules: [");
        let mut rule_parts: Vec<String> = Vec::new();
        let m = self.rules.len();
        for k in 0..m
            invariant
                m == self.rules@.len(),
                rule_parts@.len() == k,
                forall|j: int| 0 <= j < k ==> rule_parts@[j]@ == spec_render_rule(
                    #[trigger] rules_view(self.rules@)[j],
                ),
        {
            proof {
                assert(rules_view(self.rules@)[k as int] == self.rules@[k as int]@);
            }
            rule_parts.push(self.rules[k].render());
        }
        let joined_rules = join_strings(&rule_parts, ", ");
        proof {
            assert(rule_parts.deep_view() =~= self@.rules.map_values(
                |r: RuleSpec| spec_render_rule(r),
            ));
        }
        s.append(joined_rules.as_str());
        s.append("] }");
        s
    }
}

/// The diagnostic rendering of the whole configuration.
pub open spec fn spec_render_settings(s: SettingsSpec) -> Seq<char> {
    "Settings { default: "@ + s.default + ", browsers: ["@ + spec_join(
        s.browsers.map_values(|p: (Seq<char>, CommandShape)| spec_render_command(p.1)),
        ", "@,
    ) + "], rules: ["@ + spec_join(s.rules.map_values(|r: RuleSpec| spec_render_rule(r)), ", "@)
        + "] }"@
}

} // verus!
