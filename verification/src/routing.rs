//! The routing decision: select a browser by the first matching rule,
//! resolve the selected name to a command, and build the final argument list
//! with the URL appended last.

use vstd::prelude::*;
use vstd::string::StringExecFns;
use crate::pattern::regex_matches;
use crate::settings::{BrowserConfig, CommandShape, Rule, RuleSpec, Settings, lemma_map_of_dom,
    lemma_map_of_index, map_of, pairs_view, rules_view, unique_names};

verus! {

broadcast use vstd::std_specs::vec::vec_clone_deep_view_proof;

/// The browser name the matcher returns: the `browser` field of the first
/// rule whose pattern matches `url`, or `default` when no rule matches.
pub open spec fn spec_select(rules: Seq<RuleSpec>, default: Seq<char>, url: Seq<char>) -> Seq<char>
    decreases rules.len(),
{
    if rules.len() == 0 {
        default
    } else if regex_matches(rules[0].pattern, url) {
        rules[0].browser
    } else {
        spec_select(rules.drop_first(), default, url)
    }
}

/// First-match routing: when rule `i` matches `url` and no earlier rule
/// does, the selected name is rule `i`'s browser, whatever the later rules
/// hold.
pub proof fn lemma_select_first_match(
    rules: Seq<RuleSpec>,
    default: Seq<char>,
    url: Seq<char>,
    i: int,
)
    requires
        0 <= i < rules.len(),
        regex_matches(rules[i].pattern, url),
        forall|j: int| 0 <= j < i ==> !regex_matches(#[trigger] rules[j].pattern, url),
    ensures
        spec_select(rules, default, url) == rules[i].browser,
    decreases i,
{
    if i > 0 {
        assert(!regex_matches(rules[0].pattern, url));
        assert forall|j: int| 0 <= j < i - 1 implies !regex_matches(
            #[trigger] rules.drop_first()[j].pattern,
            url,
        ) by {
            assert(rules.drop_first()[j] == rules[j + 1]);
        }
        assert(rules.drop_first()[i - 1] == rules[i]);
        lemma_select_first_match(rules.drop_first(), default, url, i - 1);
    }
}

/// Default routing: when no rule's pattern matches `url`, the selected name
/// is the configured default.
pub proof fn lemma_select_default(rules: Seq<RuleSpec>, default: Seq<char>, url: Seq<char>)
    requires
        forall|j: int| 0 <= j < rules.len() ==> !regex_matches(#[trigger] rules[j].pattern, url),
    ensures
        spec_select(rules, default, url) == default,
    decreases rules.len(),
{
    if rules.len() > 0 {
        assert forall|j: int| 0 <= j < rules.len() - 1 implies !regex_matches(
            #[trigger] rules.drop_first()[j].pattern,
            url,
        ) by {
            assert(rules.drop_first()[j] == rules[j + 1]);
        }
        lemma_select_default(rules.drop_first(), default, url);
    }
}

/// Selection is a pure function of its inputs: any two results obtained from
/// the same rule list, default, and URL are identical.
pub proof fn lemma_select_deterministic(
    rules: Seq<RuleSpec>,
    default: Seq<char>,
    url: Seq<char>,
    r1: Seq<char>,
    r2: Seq<char>,
)
    requires
        r1 == spec_select(rules, default, url),
        r2 == spec_select(rules, default, url),
    ensures
        r1 == r2,
{
}

/// Scans the rules in order and returns the browser of the first one whose
/// pattern matches anywhere within `url`; when none matches, returns
/// `default`.
pub fn select_browser(rules: &Vec<Rule>, default: &String, url: &str) -> (name: String)
    ensures
        name@ == spec_select(rules_view(rules@), default@, url@),
{
    let n = rules.len();
    for i in 0..n
        invariant
            n == rules@.len(),
            forall|j: int| 0 <= j < i ==> !regex_matches(
                #[trigger] rules_view(rules@)[j].pattern,
                url@,
            ),
    {
        proof {
            assert(rules_view(rules@)[i as int] == rules@[i as int]@);
        }
        if rules[i].matches(url) {
            proof {
                lemma_select_first_match(rules_view(rules@), default@, url@, i as int);
            }
            return rules[i].browser().clone();
        }
    }
    proof {
        lemma_select_default(rules_view(rules@), default@, url@);
    }
    default.clone()
}

/// A resolved command: the executable path and the arguments, in the order
/// they will be handed to the operating system (before the URL is appended).
pub ghost struct CommandSpec {
    pub path: Seq<char>,
    pub args: Seq<Seq<char>>,
}

/// What a browser definition resolves to: the simple form is its path with
/// no arguments; the detailed form keeps its declared arguments, in order.
pub open spec fn command_of(shape: CommandShape) -> CommandSpec {
    match shape {
        CommandShape::Simple { path } => CommandSpec { path, args: Seq::empty() },
        CommandShape::Detailed { path, args } => CommandSpec { path, args },
    }
}

/// A simple-form browser resolves to its path and an empty argument list.
pub proof fn lemma_resolve_simple(path: Seq<char>)
    ensures
        command_of(CommandShape::Simple { path }) == (CommandSpec {
            path,
            args: Seq::<Seq<char>>::empty(),
        }),
{
}

/// A detailed-form browser resolves to its path and exactly its declared
/// arguments, order preserved.
pub proof fn lemma_resolve_detailed(path: Seq<char>, args: Seq<Seq<char>>)
    ensures
        command_of(CommandShape::Detailed { path, args }) == (CommandSpec { path, args }),
{
}

/// Why resolution failed.
#[derive(Debug)]
pub enum ResolveError {
    /// The selected browser name has no entry; carries the offending name.
    BrowserNotFound(String),
}

impl ResolveError {
    /// The human-readable failure message.
    pub fn message(&self) -> (r: String)
        ensures
            (match self {
                ResolveError::BrowserNotFound(n) => r@ == "browser "@ + n@ + " not found"@,
            }),
    {
        match self {
            ResolveError::BrowserNotFound(n) => {
                let mut s = String::from_str("browser ");
                s.append(n.as_str());
                s.append(" not found");
                s
            },
        }
    }
}

/// Looks the selected name up among the browser entries: a pure data lookup
/// that yields the entry's path and arguments, or fails with the offending
/// name exactly when no entry carries it.
pub fn resolve(browsers: &Vec<(String, BrowserConfig)>, name: &String) -> (r: Result<
    (String, Vec<String>),
    ResolveError,
>)
    requires
        unique_names(pairs_view(browsers@)),
    ensures
        r is Ok <==> map_of(pairs_view(browsers@)).dom().contains(name@),
        r matches Ok(cmd) ==> {
            let found = command_of(map_of(pairs_view(browsers@))[name@]);
            cmd.0@ == found.path && cmd.1.deep_view() == found.args
        },
        r matches Err(e) ==> e matches ResolveError::BrowserNotFound(n) && n@ == name@,
{
    let n = browsers.len();
    for i in 0..n
        invariant
            n == browsers@.len(),
            unique_names(pairs_view(browsers@)),
            forall|j: int| 0 <= j < i ==> pairs_view(browsers@)[j].0 != name@,
    {
        proof {
            let gi = i as int;
            assert(pairs_view(browsers@)[gi] == (browsers@[gi].0@, browsers@[gi].1@));
        }
        if browsers[i].0 == *name {
            proof {
                lemma_map_of_index(pairs_view(browsers@), i as int);
            }
            match &browsers[i].1 {
                BrowserConfig::Simple(path) => {
                    return Ok((path.clone(), Vec::new()));
                },
                BrowserConfig::Detailed { path, args } => {
                    return Ok((path.clone(), args.clone()));
                },
            }
        }
    }
    proof {
        lemma_map_of_dom(pairs_view(browsers@), name@);
    }
    Err(ResolveError::BrowserNotFound(name.clone()))
}

/// Builds the final argument vector: the resolved arguments followed by the
/// URL as the last element, never reordered or interleaved.
pub fn build_launch_args(args: &Vec<String>, url: &str) -> (v: Vec<String>)
    ensures
        v.deep_view() == args.deep_view().push(url@),
{
    let mut v = args.clone();
    v.push(url.to_owned());
    proof {
        assert(v.deep_view() =~= args.deep_view().push(url@));
    }
    v
}

/// The complete routing decision for one URL: select a browser name by the
/// first matching rule (else the default), resolve it among the configured
/// browsers, and append the URL after the resolved arguments.  Fails with
/// the selected name exactly when that name has no browser entry.
pub fn route(settings: &Settings, url: &str) -> (r: Result<(String, Vec<String>), ResolveError>)
    ensures
        ({
            let name = spec_select(settings@.rules, settings@.default, url@);
            let browsers = settings@.browser_map();
            &&& (r is Ok <==> browsers.dom().contains(name))
            &&& r matches Ok(plan) ==> plan.0@ == command_of(browsers[name]).path
                && plan.1.deep_view() == command_of(browsers[name]).args.push(url@)
            &&& r matches Err(e) ==> e matches ResolveError::BrowserNotFound(n) && n@ == name
        }),
{
    let name = select_browser(settings.rules(), settings.default_browser(), url);
    match resolve(settings.browsers(), &name) {
        Ok((path, args)) => {
            let full = build_launch_args(&args, url);
            Ok((path, full))
        },
        Err(e) => Err(e),
    }
}

} // verus!
