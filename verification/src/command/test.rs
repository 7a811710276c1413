//! Implementation of the `wasm-pack test` command: its options, the steps it
//! runs, and the environment of the test runs.

use vstd::prelude::*;
use crate::binary_install::Cache;
use crate::install::InstallMode;
use crate::text::{to_chars, str_starts_with, starts_with_seq, str_eq, views};

verus! {

/// Everything required to configure the `wasm-pack test` command.
#[derive(Debug)]
pub struct TestOptions {
    /// Run the tests in Node.js.
    pub node: bool,
    /// Run the tests in Firefox.
    pub firefox: bool,
    /// The path to the `geckodriver` WebDriver client. Implies `--firefox`.
    pub geckodriver: Option<String>,
    /// Run the tests in Chrome.
    pub chrome: bool,
    /// The path to the `chromedriver` WebDriver client. Implies `--chrome`.
    pub chromedriver: Option<String>,
    /// Run the tests in Safari.
    pub safari: bool,
    /// The path to the `safaridriver` WebDriver client. Implies `--safari`.
    pub safaridriver: Option<String>,
    /// Run browser tests without a UI.
    pub headless: bool,
    /// Sets steps to be run.
    pub mode: InstallMode,
    /// Build with the release profile.
    pub release: bool,
    /// Path to the Rust crate, and extra options to pass to `cargo test`.
    pub path_and_extra_options: Vec<String>,
}

impl Default for TestOptions {
    fn default() -> (r: TestOptions)
        ensures
            !r.node && !r.firefox && !r.chrome && !r.safari && !r.headless && !r.release,
            r.geckodriver is None && r.chromedriver is None && r.safaridriver is None,
            r.mode is Normal,
            r.path_and_extra_options@.len() == 0,
    {
        TestOptions {
            node: false,
            firefox: false,
            geckodriver: None,
            chrome: false,
            chromedriver: None,
            safari: false,
            safaridriver: None,
            headless: false,
            mode: InstallMode::Normal,
            release: false,
            path_and_extra_options: Vec::new(),
        }
    }
}

/// A configured `wasm-pack test` command.
#[derive(Debug)]
pub struct Test {
    crate_path: String,
    cache: Cache,
    node: bool,
    mode: InstallMode,
    firefox: bool,
    geckodriver: Option<String>,
    chrome: bool,
    chromedriver: Option<String>,
    safari: bool,
    safaridriver: Option<String>,
    headless: bool,
    release: bool,
    test_runner_path: Option<String>,
    extra_options: Vec<String>,
}

/// The steps of `wasm-pack test`.
#[derive(Clone, Copy, Debug)]
pub enum TestStep {
    /// Check the version of `rustc`.
    CheckRustcVersion,
    /// Check that the wasm target is installed.
    CheckForWasmTarget,
    /// Compile the tests to wasm.
    BuildTests,
    /// Get `wasm-bindgen`'s test runner.
    InstallWasmBindgen,
    /// Run the tests in Node.js.
    TestNode,
    /// Get `chromedriver`.
    GetChromedriver,
    /// Run the tests in Chrome.
    TestChrome,
    /// Get `geckodriver`.
    GetGeckodriver,
    /// Run the tests in Firefox.
    TestFirefox,
    /// Get `safaridriver`.
    GetSafaridriver,
    /// Run the tests in Safari.
    TestSafari,
}

/// The message when no test environment is chosen.
pub open spec fn no_environment_message() -> Seq<char> {
    "Must specify at least one of `--node`, `--chrome`, `--firefox`, or `--safari`"@
}

/// The message when `--headless` is given without a browser.
pub open spec fn headless_message() -> Seq<char> {
    "The `--headless` flag only applies to browser tests. Node does not provide a UI, so it doesn't make sense to talk about a headless version of Node tests."@
}

/// Chrome is chosen: `--chrome`, or a `chromedriver` path, which implies it.
pub open spec fn chrome_chosen(o: TestOptions) -> bool {
    o.chrome || o.chromedriver is Some
}

/// Firefox is chosen: `--firefox`, or a `geckodriver` path, which implies it.
pub open spec fn firefox_chosen(o: TestOptions) -> bool {
    o.firefox || o.geckodriver is Some
}

/// Safari is chosen: `--safari`, or a `safaridriver` path, which implies it.
pub open spec fn safari_chosen(o: TestOptions) -> bool {
    o.safari || o.safaridriver is Some
}

/// Some browser is chosen.
pub open spec fn any_browser(o: TestOptions) -> bool {
    chrome_chosen(o) || firefox_chosen(o) || safari_chosen(o)
}

/// The first of the trailing arguments is the crate path, unless it is a
/// flag.
pub open spec fn first_arg_is_path(args: Seq<Seq<char>>) -> bool {
    args.len() > 0 && !starts_with_seq(args[0], "-"@)
}

/// The steps run for the chosen mode and environments, in order.
pub open spec fn process_steps_of(
    mode: InstallMode,
    node: bool,
    chrome: bool,
    chromedriver_given: bool,
    firefox: bool,
    geckodriver_given: bool,
    safari: bool,
    safaridriver_given: bool,
) -> Seq<TestStep> {
    let checks = match mode {
        InstallMode::Normal => seq![TestStep::CheckRustcVersion, TestStep::CheckForWasmTarget],
        InstallMode::Force => seq![TestStep::CheckForWasmTarget],
        InstallMode::Noinstall => Seq::<TestStep>::empty(),
    };
    checks + seq![TestStep::BuildTests, TestStep::InstallWasmBindgen]
        + step_if(node, TestStep::TestNode)
        + step_if(chrome && !chromedriver_given, TestStep::GetChromedriver)
        + step_if(chrome, TestStep::TestChrome)
        + step_if(firefox && !geckodriver_given, TestStep::GetGeckodriver)
        + step_if(firefox, TestStep::TestFirefox)
        + step_if(safari && !safaridriver_given, TestStep::GetSafaridriver)
        + step_if(safari, TestStep::TestSafari)
}

/// The options before the first `--`, which `cargo build` gets.
pub open spec fn options_before_separator(opts: Seq<Seq<char>>) -> Seq<Seq<char>>
    decreases opts.len(),
{
    if opts.len() == 0 {
        opts
    } else if opts[0] == "--"@ {
        Seq::<Seq<char>>::empty()
    } else {
        seq![opts[0]] + options_before_separator(opts.drop_first())
    }
}

/// The view of an optional string.
pub open spec fn opt_view(o: Option<String>) -> Option<Seq<char>> {
    match o {
        Some(s) => Some(s@),
        None => None,
    }
}

/// An environment variable, by name and value.
pub type EnvVar = (String, String);

/// The views of environment variables.
pub open spec fn env_views(v: Seq<EnvVar>) -> Seq<(Seq<char>, Seq<char>)> {
    v.map_values(|e: EnvVar| (e.0@, e.1@))
}

/// The variable naming the test runner.
pub open spec fn runner_var() -> Seq<char> {
    "CARGO_TARGET_WASM32_UNKNOWN_UNKNOWN_RUNNER"@
}

/// The environment of browser test runs with the runner at `runner`.
pub open spec fn webdriver_env_of(runner: Seq<char>, headless: bool) -> Seq<(Seq<char>, Seq<char>)> {
    seq![(runner_var(), runner), ("WASM_BINDGEN_TEST_ONLY_WEB"@, "1"@)]
        + if headless { Seq::empty() } else { seq![("NO_HEADLESS"@, "1"@)] }
}

impl Test {
    /// The crate the tests are built from.
    pub closed spec fn crate_path_of(&self) -> Seq<char> {
        self.crate_path@
    }

    /// The options passed on to `cargo`.
    pub closed spec fn extra_options_of(&self) -> Seq<Seq<char>> {
        views(self.extra_options@)
    }

    /// The steps this command runs.
    pub closed spec fn steps_of(&self) -> Seq<TestStep> {
        process_steps_of(self.mode, self.node, self.chrome, self.chromedriver is Some, self.firefox,
            self.geckodriver is Some, self.safari, self.safaridriver is Some)
    }

    /// Whether the test runner is known.
    pub closed spec fn has_runner(&self) -> bool {
        self.test_runner_path is Some
    }

    /// The test runner's path, once known.
    pub closed spec fn runner_of(&self) -> Seq<char> {
        self.test_runner_path->0@
    }

    /// The `chromedriver` given or found, if any.
    pub closed spec fn chromedriver_of(&self) -> Option<Seq<char>> {
        opt_view(self.chromedriver)
    }

    /// The `geckodriver` given or found, if any.
    pub closed spec fn geckodriver_of(&self) -> Option<Seq<char>> {
        opt_view(self.geckodriver)
    }

    /// The `safaridriver` given or found, if any.
    pub closed spec fn safaridriver_of(&self) -> Option<Seq<char>> {
        opt_view(self.safaridriver)
    }

    /// Whether browser tests run without a UI.
    pub closed spec fn headless_of(&self) -> bool {
        self.headless
    }

    /// The cache the command uses.
    pub closed spec fn cache_of(&self) -> Seq<char> {
        self.cache@
    }

    /// Whether the release profile is used.
    pub closed spec fn release_of(&self) -> bool {
        self.release
    }

    /// The install mode.
    pub closed spec fn mode_of(&self) -> InstallMode {
        self.mode
    }

    /// Construct a test command from the given options. A driver path
    /// implies its browser (`--chromedriver` implies `--chrome`, and so on).
    /// When the first trailing argument is not a flag it is the crate path;
    /// otherwise the crate path is `crate_path_from_cwd` (what searching up
    /// from the current directory found).
    pub fn try_from_opts(test_opts: TestOptions, crate_path_from_cwd: String, cache: Cache) -> (r: Result<Test, String>)
        ensures
            !test_opts.node && !any_browser(test_opts) ==> (r matches Err(e) && e@ == no_environment_message()),
            test_opts.node && test_opts.headless && !any_browser(test_opts) ==>
                (r matches Err(e) && e@ == headless_message()),
            (test_opts.node || any_browser(test_opts)) && (!test_opts.headless || any_browser(test_opts))
                ==> (r matches Ok(t)
                && t.steps_of() == process_steps_of(test_opts.mode, test_opts.node, chrome_chosen(test_opts),
                    test_opts.chromedriver is Some, firefox_chosen(test_opts), test_opts.geckodriver is Some,
                    safari_chosen(test_opts), test_opts.safaridriver is Some)
                && t.chromedriver_of() == opt_view(test_opts.chromedriver)
                && t.geckodriver_of() == opt_view(test_opts.geckodriver)
                && t.safaridriver_of() == opt_view(test_opts.safaridriver)
                && t.headless_of() == test_opts.headless
                && t.release_of() == test_opts.release
                && t.mode_of() == test_opts.mode
                && !t.has_runner()
                && t.cache_of() == cache@
                && if first_arg_is_path(views(test_opts.path_and_extra_options@)) {
                    t.crate_path_of() == test_opts.path_and_extra_options@[0]@
                    && t.extra_options_of() == views(test_opts.path_and_extra_options@).drop_first()
                } else {
                    t.crate_path_of() == crate_path_from_cwd@
                    && t.extra_options_of() == views(test_opts.path_and_extra_options@)
                }),
    {
        let TestOptions {
            node,
            mode,
            headless,
            release,
            chrome,
            chromedriver,
            firefox,
            geckodriver,
            safari,
            safaridriver,
            path_and_extra_options,
        } = test_opts;
        let mut args = path_and_extra_options;
        let ghost all = views(args@);
        proof {
            reveal_strlit("-");
        }
        let first_arg_is_path = args.len() > 0 && !str_starts_with(args[0].as_str(), "-");
        let crate_path = if first_arg_is_path {
            let p = args.remove(0);
            assert(views(args@) =~= all.drop_first());
            p
        } else {
            crate_path_from_cwd
        };
        let chrome = chrome || chromedriver.is_some();
        let firefox = firefox || geckodriver.is_some();
        let safari = safari || safaridriver.is_some();
        let any_browser = chrome || firefox || safari;
        if !node && !any_browser {
            return Err(String::from_str(
                "Must specify at least one of `--node`, `--chrome`, `--firefox`, or `--safari`",
            ));
        }
        if headless && !any_browser {
            return Err(String::from_str(
                "The `--headless` flag only applies to browser tests. Node does not provide a UI, so it doesn't make sense to talk about a headless version of Node tests.",
            ));
        }
        Ok(Test {
            cache,
            crate_path,
            node,
            mode,
            chrome,
            chromedriver,
            firefox,
            geckodriver,
            safari,
            safaridriver,
            headless,
            release,
            test_runner_path: None,
            extra_options: args,
        })
    }

    /// Configures the cache that this test command uses
    pub fn set_cache(&mut self, cache: Cache)
        ensures
            final(self).cache_of() == cache@,
            final(self).steps_of() == old(self).steps_of(),
            final(self).crate_path_of() == old(self).crate_path_of(),
            final(self).extra_options_of() == old(self).extra_options_of(),
            final(self).has_runner() == old(self).has_runner(),
            final(self).runner_of() == old(self).runner_of(),
            final(self).headless_of() == old(self).headless_of(),
    {
        self.cache = cache;
    }

    /// The steps this command runs, in order: the checks its mode calls for,
    /// building the tests, getting the test runner, then for each chosen
    /// environment getting its driver (unless given) and running the tests.
    pub fn get_process_steps(&self) -> (r: Vec<TestStep>)
        ensures
            r@ == self.steps_of(),
    {
        let mut steps: Vec<TestStep> = Vec::new();
        match self.mode {
            InstallMode::Normal => {
                steps.push(TestStep::CheckRustcVersion);
                steps.push(TestStep::CheckForWasmTarget);
            },
            InstallMode::Force => {
                steps.push(TestStep::CheckForWasmTarget);
            },
            InstallMode::Noinstall => {},
        }
        let ghost checks = steps@;
        steps.push(TestStep::BuildTests);
        steps.push(TestStep::InstallWasmBindgen);
        assert(steps@ =~= checks + seq![TestStep::BuildTests, TestStep::InstallWasmBindgen]);
        push_if(&mut steps, self.node, TestStep::TestNode);
        push_if(&mut steps, self.chrome && self.chromedriver.is_none(), TestStep::GetChromedriver);
        push_if(&mut steps, self.chrome, TestStep::TestChrome);
        push_if(&mut steps, self.firefox && self.geckodriver.is_none(), TestStep::GetGeckodriver);
        push_if(&mut steps, self.firefox, TestStep::TestFirefox);
        push_if(&mut steps, self.safari && self.safaridriver.is_none(), TestStep::GetSafaridriver);
        push_if(&mut steps, self.safari, TestStep::TestSafari);
        assert(steps@ == self.steps_of());
        steps
    }

    /// The options `cargo build` gets when building the tests: those before
    /// the first `--`.
    pub fn build_test_options(&self) -> (r: Vec<String>)
        ensures
            views(r@) == options_before_separator(self.extra_options_of()),
    {
        let opts = &self.extra_options;
        let mut r: Vec<String> = Vec::new();
        let mut i: usize = 0;
        proof {
            reveal_strlit("--");
        }
        assert(views(opts@).skip(0) =~= views(opts@));
        assert(views(r@) + options_before_separator(views(opts@)) =~= options_before_separator(views(opts@)));
        while i < opts.len()
            invariant
                views(opts@) == self.extra_options_of(),
                i <= opts.len(),
                options_before_separator(views(opts@)) == views(r@) + options_before_separator(views(opts@).skip(i as int)),
                forall|k: int| 0 <= k < i ==> views(opts@)[k] != "--"@,
            decreases opts.len() - i,
        {
            let ghost rest = views(opts@).skip(i as int);
            assert(rest[0] == opts@[i as int]@);
            if str_eq(opts[i].as_str(), "--") {
                assert(rest.len() > 0);
                assert(rest[0] == "--"@);
                assert(options_before_separator(rest) =~= Seq::<Seq<char>>::empty());
                assert(options_before_separator(views(opts@)) == views(r@) + options_before_separator(rest));
                assert(views(r@) + Seq::<Seq<char>>::empty() =~= views(r@));
                return r;
            }
            let ghost before = views(r@);
            r.push(opts[i].clone());
            assert(rest.drop_first() =~= views(opts@).skip(i + 1));
            assert(views(r@) =~= before.push(opts@[i as int]@));
            assert(before + options_before_separator(rest) =~= views(r@) + options_before_separator(views(opts@).skip(i + 1)));
            i = i + 1;
        }
        assert(views(opts@).skip(i as int) =~= Seq::<Seq<char>>::empty());
        assert(views(r@) + Seq::<Seq<char>>::empty() =~= views(r@));
        r
    }

    /// Records the path of `wasm-bindgen`'s test runner.
    pub fn set_test_runner_path(&mut self, path: String)
        ensures
            final(self).has_runner(),
            final(self).runner_of() == path@,
            final(self).steps_of() == old(self).steps_of(),
            final(self).headless_of() == old(self).headless_of(),
            final(self).crate_path_of() == old(self).crate_path_of(),
            final(self).extra_options_of() == old(self).extra_options_of(),
    {
        self.test_runner_path = Some(path);
    }

    /// The environment of browser test runs: the test runner, web-only
    /// tests, and a visible browser unless headless.
    pub fn webdriver_env(&self) -> (r: Vec<EnvVar>)
        requires
            self.has_runner(),
        ensures
            env_views(r@) == webdriver_env_of(self.runner_of(), self.headless_of()),
    {
        let runner = match &self.test_runner_path {
            Some(p) => p.clone(),
            None => String::new(),
        };
        let mut envs: Vec<EnvVar> = Vec::new();
        envs.push((String::from_str("CARGO_TARGET_WASM32_UNKNOWN_UNKNOWN_RUNNER"), runner));
        envs.push((String::from_str("WASM_BINDGEN_TEST_ONLY_WEB"), String::from_str("1")));
        if !self.headless {
            envs.push((String::from_str("NO_HEADLESS"), String::from_str("1")));
        }
        assert(env_views(envs@) =~= webdriver_env_of(self.runner_of(), self.headless_of()));
        envs
    }

    /// The environment of the Node.js test run.
    pub fn node_env(&self) -> (r: Vec<EnvVar>)
        requires
            self.has_runner(),
        ensures
            env_views(r@) == seq![(runner_var(), self.runner_of()), ("WASM_BINDGEN_TEST_ONLY_NODE"@, "1"@)],
    {
        let runner = match &self.test_runner_path {
            Some(p) => p.clone(),
            None => String::new(),
        };
        let mut envs: Vec<EnvVar> = Vec::new();
        envs.push((String::from_str("CARGO_TARGET_WASM32_UNKNOWN_UNKNOWN_RUNNER"), runner));
        envs.push((String::from_str("WASM_BINDGEN_TEST_ONLY_NODE"), String::from_str("1")));
        assert(env_views(envs@) =~= seq![(runner_var(), self.runner_of()), ("WASM_BINDGEN_TEST_ONLY_NODE"@, "1"@)]);
        envs
    }

    /// The environment of a browser test run with the driver variable `var`
    /// set to `driver`.
    pub fn browser_env(&self, var: &str, driver: &str) -> (r: Vec<EnvVar>)
        requires
            self.has_runner(),
        ensures
            env_views(r@) == webdriver_env_of(self.runner_of(), self.headless_of()).push((var@, driver@)),
    {
        let mut envs = self.webdriver_env();
        envs.push((String::from_str(var), String::from_str(driver)));
        assert(env_views(envs@) =~= webdriver_env_of(self.runner_of(), self.headless_of()).push((var@, driver@)));
        envs
    }

    /// Whether the test runner's path is known yet.
    pub fn has_test_runner(&self) -> (r: bool)
        ensures
            r == self.has_runner(),
    {
        self.test_runner_path.is_some()
    }

    /// The crate the tests are built from.
    pub fn crate_path(&self) -> (r: &String)
        ensures
            r@ == self.crate_path_of(),
    {
        &self.crate_path
    }

    /// Whether the release profile is used.
    pub fn release(&self) -> (r: bool)
        ensures
            r == self.release_of(),
    {
        self.release
    }

    /// The install mode.
    pub fn mode(&self) -> (r: InstallMode)
        ensures
            r == self.mode_of(),
    {
        self.mode
    }

    /// The cache the command uses.
    pub fn cache(&self) -> (r: &Cache)
        ensures
            r@ == self.cache_of(),
    {
        &self.cache
    }

    /// The options passed on to `cargo test`.
    pub fn extra_options(&self) -> (r: &Vec<String>)
        ensures
            views(r@) == self.extra_options_of(),
    {
        &self.extra_options
    }

    /// The drivers given or found so far for Chrome, Firefox and Safari.
    pub fn drivers(&self) -> (r: (Option<String>, Option<String>, Option<String>))
        ensures
            opt_view(r.0) == self.chromedriver_of(),
            opt_view(r.1) == self.geckodriver_of(),
            opt_view(r.2) == self.safaridriver_of(),
    {
        (clone_opt(&self.chromedriver), clone_opt(&self.geckodriver), clone_opt(&self.safaridriver))
    }

    /// Records the driver found for a browser.
    pub fn set_driver(&mut self, step: TestStep, path: String)
        ensures
            step is GetChromedriver ==> final(self).chromedriver_of() == Some(path@),
            step is GetGeckodriver ==> final(self).geckodriver_of() == Some(path@),
            step is GetSafaridriver ==> final(self).safaridriver_of() == Some(path@),
            final(self).has_runner() == old(self).has_runner(),
            final(self).runner_of() == old(self).runner_of(),
            final(self).headless_of() == old(self).headless_of(),
    {
        match step {
            TestStep::GetChromedriver => self.chromedriver = Some(path),
            TestStep::GetGeckodriver => self.geckodriver = Some(path),
            TestStep::GetSafaridriver => self.safaridriver = Some(path),
            _ => {},
        }
    }
}

/// `[step]` when `cond` holds, nothing otherwise.
#[verifier::opaque]
pub open spec fn step_if(cond: bool, step: TestStep) -> Seq<TestStep> {
    if cond { seq![step] } else { Seq::empty() }
}

proof fn lemma_steps_contains_add(a: Seq<TestStep>, b: Seq<TestStep>)
    ensures
        forall|x: TestStep| #[trigger] (a + b).contains(x) <==> a.contains(x) || b.contains(x),
{
    assert forall|x: TestStep| #[trigger] (a + b).contains(x) <==> a.contains(x) || b.contains(x) by {
        if a.contains(x) {
            let i = choose|i: int| 0 <= i < a.len() && a[i] == x;
            assert((a + b)[i] == x);
        }
        if b.contains(x) {
            let i = choose|i: int| 0 <= i < b.len() && b[i] == x;
            assert((a + b)[a.len() + i] == x);
        }
        if (a + b).contains(x) {
            let i = choose|i: int| 0 <= i < (a + b).len() && (a + b)[i] == x;
            if i < a.len() {
                assert(a[i] == x);
            } else {
                assert(b[i - a.len()] == x);
            }
        }
    }
}

proof fn lemma_steps_contains_literal(pair: Seq<TestStep>, a: TestStep, b: TestStep, cond: bool)
    requires
        pair == seq![a, b],
    ensures
        forall|x: TestStep| #[trigger] pair.contains(x) <==> x == a || x == b,
        forall|x: TestStep| #[trigger] pair.drop_last().contains(x) <==> x == a,
        forall|x: TestStep| !(#[trigger] pair.take(0).contains(x)),
        forall|x: TestStep| #[trigger] step_if(cond, a).contains(x) <==> cond && x == a,
{
    reveal(step_if);
    assert(pair[0] == a && pair[1] == b);
    assert(pair.drop_last()[0] == a);
    assert(step_if(cond, a) == if cond { pair.drop_last() } else { pair.take(0) });
}

/// The steps run exactly the chosen environments; a browser's driver is
/// fetched just when that browser is chosen and no driver was given; the
/// tests are always built and the test runner always installed; the rustc
/// version is checked only in the normal mode, and the wasm target in every
/// mode but `no-install`.
pub proof fn lemma_process_steps_follow_choices(
    mode: InstallMode,
    node: bool,
    chrome: bool,
    chromedriver_given: bool,
    firefox: bool,
    geckodriver_given: bool,
    safari: bool,
    safaridriver_given: bool,
)
    ensures
        ({
            let s = process_steps_of(mode, node, chrome, chromedriver_given, firefox,
                geckodriver_given, safari, safaridriver_given);
            &&& s.contains(TestStep::TestNode) == node
            &&& s.contains(TestStep::TestChrome) == chrome
            &&& s.contains(TestStep::TestFirefox) == firefox
            &&& s.contains(TestStep::TestSafari) == safari
            &&& s.contains(TestStep::GetChromedriver) == (chrome && !chromedriver_given)
            &&& s.contains(TestStep::GetGeckodriver) == (firefox && !geckodriver_given)
            &&& s.contains(TestStep::GetSafaridriver) == (safari && !safaridriver_given)
            &&& s.contains(TestStep::BuildTests)
            &&& s.contains(TestStep::InstallWasmBindgen)
            &&& s.contains(TestStep::CheckRustcVersion) == (mode is Normal)
            &&& s.contains(TestStep::CheckForWasmTarget) == !(mode is Noinstall)
        }),
{
    let both = seq![TestStep::CheckRustcVersion, TestStep::CheckForWasmTarget];
    let target_only = seq![TestStep::CheckForWasmTarget, TestStep::CheckForWasmTarget];
    let build = seq![TestStep::BuildTests, TestStep::InstallWasmBindgen];
    let checks = match mode {
        InstallMode::Normal => both,
        InstallMode::Force => target_only.drop_last(),
        InstallMode::Noinstall => both.take(0),
    };
    lemma_steps_contains_literal(both, TestStep::CheckRustcVersion, TestStep::CheckForWasmTarget, false);
    lemma_steps_contains_literal(target_only, TestStep::CheckForWasmTarget, TestStep::CheckForWasmTarget, false);
    lemma_steps_contains_literal(build, TestStep::BuildTests, TestStep::InstallWasmBindgen, false);
    lemma_steps_contains_literal(seq![TestStep::TestNode, TestStep::TestNode], TestStep::TestNode, TestStep::TestNode, node);
    lemma_steps_contains_literal(seq![TestStep::GetChromedriver, TestStep::TestNode], TestStep::GetChromedriver, TestStep::TestNode, chrome && !chromedriver_given);
    lemma_steps_contains_literal(seq![TestStep::TestChrome, TestStep::TestNode], TestStep::TestChrome, TestStep::TestNode, chrome);
    lemma_steps_contains_literal(seq![TestStep::GetGeckodriver, TestStep::TestNode], TestStep::GetGeckodriver, TestStep::TestNode, firefox && !geckodriver_given);
    lemma_steps_contains_literal(seq![TestStep::TestFirefox, TestStep::TestNode], TestStep::TestFirefox, TestStep::TestNode, firefox);
    lemma_steps_contains_literal(seq![TestStep::GetSafaridriver, TestStep::TestNode], TestStep::GetSafaridriver, TestStep::TestNode, safari && !safaridriver_given);
    lemma_steps_contains_literal(seq![TestStep::TestSafari, TestStep::TestNode], TestStep::TestSafari, TestStep::TestNode, safari);
    assert(checks == match mode {
        InstallMode::Normal => seq![TestStep::CheckRustcVersion, TestStep::CheckForWasmTarget],
        InstallMode::Force => seq![TestStep::CheckForWasmTarget],
        InstallMode::Noinstall => Seq::<TestStep>::empty(),
    });
    let s0 = checks + build;
    let s1 = s0 + step_if(node, TestStep::TestNode);
    let s2 = s1 + step_if(chrome && !chromedriver_given, TestStep::GetChromedriver);
    let s3 = s2 + step_if(chrome, TestStep::TestChrome);
    let s4 = s3 + step_if(firefox && !geckodriver_given, TestStep::GetGeckodriver);
    let s5 = s4 + step_if(firefox, TestStep::TestFirefox);
    let s6 = s5 + step_if(safari && !safaridriver_given, TestStep::GetSafaridriver);
    let s7 = s6 + step_if(safari, TestStep::TestSafari);
    lemma_steps_contains_add(checks, build);
    lemma_steps_contains_add(s0, step_if(node, TestStep::TestNode));
    lemma_steps_contains_add(s1, step_if(chrome && !chromedriver_given, TestStep::GetChromedriver));
    lemma_steps_contains_add(s2, step_if(chrome, TestStep::TestChrome));
    lemma_steps_contains_add(s3, step_if(firefox && !geckodriver_given, TestStep::GetGeckodriver));
    lemma_steps_contains_add(s4, step_if(firefox, TestStep::TestFirefox));
    lemma_steps_contains_add(s5, step_if(safari && !safaridriver_given, TestStep::GetSafaridriver));
    lemma_steps_contains_add(s6, step_if(safari, TestStep::TestSafari));
    assert(s7 == process_steps_of(mode, node, chrome, chromedriver_given, firefox,
        geckodriver_given, safari, safaridriver_given));
}

/// The modes differ only in the checks: `force` runs the normal steps
/// without the rustc version check, and `no-install` without both checks;
/// the other steps keep their order.
pub proof fn lemma_process_steps_by_mode(
    node: bool,
    chrome: bool,
    chromedriver_given: bool,
    firefox: bool,
    geckodriver_given: bool,
    safari: bool,
    safaridriver_given: bool,
)
    ensures
        ({
            let normal = process_steps_of(InstallMode::Normal, node, chrome, chromedriver_given, firefox,
                geckodriver_given, safari, safaridriver_given);
            &&& normal[0] == TestStep::CheckRustcVersion
            &&& normal[1] == TestStep::CheckForWasmTarget
            &&& process_steps_of(InstallMode::Force, node, chrome, chromedriver_given, firefox,
                geckodriver_given, safari, safaridriver_given) == normal.remove(0)
            &&& process_steps_of(InstallMode::Noinstall, node, chrome, chromedriver_given, firefox,
                geckodriver_given, safari, safaridriver_given) == normal.skip(2)
        }),
{
    let e1 = step_if(node, TestStep::TestNode);
    let e2 = step_if(chrome && !chromedriver_given, TestStep::GetChromedriver);
    let e3 = step_if(chrome, TestStep::TestChrome);
    let e4 = step_if(firefox && !geckodriver_given, TestStep::GetGeckodriver);
    let e5 = step_if(firefox, TestStep::TestFirefox);
    let e6 = step_if(safari && !safaridriver_given, TestStep::GetSafaridriver);
    let e7 = step_if(safari, TestStep::TestSafari);
    let base = seq![TestStep::BuildTests, TestStep::InstallWasmBindgen];
    let n0 = seq![TestStep::CheckRustcVersion, TestStep::CheckForWasmTarget] + base;
    let f0 = seq![TestStep::CheckForWasmTarget] + base;
    let z0 = Seq::<TestStep>::empty() + base;
    assert(n0.remove(0) =~= f0);
    assert(n0.skip(2) =~= z0);
    lemma_steps_layer(n0, f0, z0, e1);
    let (n1, f1, z1) = (n0 + e1, f0 + e1, z0 + e1);
    lemma_steps_layer(n1, f1, z1, e2);
    let (n2, f2, z2) = (n1 + e2, f1 + e2, z1 + e2);
    lemma_steps_layer(n2, f2, z2, e3);
    let (n3, f3, z3) = (n2 + e3, f2 + e3, z2 + e3);
    lemma_steps_layer(n3, f3, z3, e4);
    let (n4, f4, z4) = (n3 + e4, f3 + e4, z3 + e4);
    lemma_steps_layer(n4, f4, z4, e5);
    let (n5, f5, z5) = (n4 + e5, f4 + e5, z4 + e5);
    lemma_steps_layer(n5, f5, z5, e6);
    let (n6, f6, z6) = (n5 + e6, f5 + e6, z5 + e6);
    lemma_steps_layer(n6, f6, z6, e7);
}

/// Appending the same steps keeps a mode's steps those of the normal mode
/// without the first check, or without both.
proof fn lemma_steps_layer(n: Seq<TestStep>, f: Seq<TestStep>, z: Seq<TestStep>, e: Seq<TestStep>)
    requires
        n.len() >= 2,
        n[0] == TestStep::CheckRustcVersion,
        n[1] == TestStep::CheckForWasmTarget,
        n.remove(0) == f,
        n.skip(2) == z,
    ensures
        (n + e)[0] == TestStep::CheckRustcVersion,
        (n + e)[1] == TestStep::CheckForWasmTarget,
        (n + e).remove(0) == f + e,
        (n + e).skip(2) == z + e,
{
    assert((n + e).remove(0) =~= n.remove(0) + e);
    assert((n + e).skip(2) =~= n.skip(2) + e);
}

/// Appends `step` when `cond` holds.
fn push_if(steps: &mut Vec<TestStep>, cond: bool, step: TestStep)
    ensures
        final(steps)@ == old(steps)@ + step_if(cond, step),
{
    reveal(step_if);
    if cond {
        steps.push(step);
    }
    assert(final(steps)@ =~= old(steps)@ + step_if(cond, step));
}

/// A copy of an optional string.
fn clone_opt(o: &Option<String>) -> (r: Option<String>)
    ensures
        r == *o,
{
    match o {
        Some(s) => Some(s.clone()),
        None => None,
    }
}

} // verus!
