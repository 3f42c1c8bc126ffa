//! Creating display modes by name, from parameters, with fallbacks for sizes
//! that a mode refuses.
use vstd::prelude::*;
use std::sync::Arc;
use crate::config::{mode_for, ModeConfig, ModeKind, ModeView};
use crate::errors::{ModeCreationError, ModeErrorView};
use crate::mode_parameters::{validation_error, ModeParameters, ModeParametersView, ThreadMode};
use crate::modes::{fresh_window, Capturing, Limited, Window};
use crate::strs::{lemma_folded_plain, owned, str_eq, strings};
use crate::titled::{kept_title, TitledState, WindowWithTitle};
use crate::window_base::initial_single_line;

verus! {

/// The name under which modes of kind `k` are created.
pub open spec fn kind_name(k: ModeKind) -> Seq<char> {
    match k {
        ModeKind::Limited => "limited"@,
        ModeKind::Capturing => "capturing"@,
        ModeKind::Window => "window"@,
        ModeKind::WindowWithTitle => "window_with_title"@,
    }
}

/// The mode a creator of kind `k` makes from parameters that passed validation.
pub open spec fn built_mode(k: ModeKind, p: ModeParametersView) -> ModeView {
    match k {
        ModeKind::Limited => ModeView::Limited(initial_single_line(p.total_jobs, true)),
        ModeKind::Capturing => ModeView::Capturing(initial_single_line(p.total_jobs, false)),
        ModeKind::Window => ModeView::Window(fresh_window(p.total_jobs, p.max_lines.unwrap())),
        ModeKind::WindowWithTitle => ModeView::WindowWithTitle(
            TitledState {
                window: fresh_window(p.total_jobs, (p.max_lines.unwrap() - 1) as usize),
                title: kept_title(
                    match p.title {
                        Some(t) => t,
                        None => "Progress"@,
                    },
                ),
                emojis: Seq::empty(),
                supports_emoji: match p.emoji_support {
                    Some(b) => b,
                    None => true,
                },
                supports_title: match p.title_support {
                    Some(b) => b,
                    None => true,
                },
            },
        ),
    }
}

/// What a creator of kind `k` gives for `p`: the validation error for its mode
/// name, if any, else the mode it builds.
pub open spec fn creation(k: ModeKind, p: ModeParametersView) -> Result<ModeView, ModeErrorView> {
    match validation_error(p, kind_name(k)) {
        Some(e) => Err(e),
        None => Ok(built_mode(k, p)),
    }
}

/// The outcome of a creation, by views.
pub open spec fn created(r: Result<ModeConfig, ModeCreationError>) -> Result<ModeView, ModeErrorView> {
    match r {
        Ok(m) => Ok(m@),
        Err(e) => Err(e@),
    }
}

/// The four mode names are plain lowercase names.
proof fn lemma_kind_names_fold(k: ModeKind)
    ensures
        crate::strs::folded(kind_name(k)) == kind_name(k),
{
    reveal_strlit("limited");
    reveal_strlit("capturing");
    reveal_strlit("window");
    reveal_strlit("window_with_title");
    lemma_folded_plain(kind_name(k));
}

/// Creators of display modes.
pub trait ModeCreator {
    /// The kind of mode this creator makes.
    spec fn creates(&self) -> ModeKind;

    /// The name of the mode this creator makes.
    fn mode_name(&self) -> (r: &'static str)
        ensures
            r@ == kind_name(self.creates()),
    ;

    /// The kind of mode this creator makes.
    fn kind(&self) -> (r: ModeKind)
        ensures
            r == self.creates(),
    ;

    /// Creates a mode from `params`.
    fn create(&self, params: &ModeParameters) -> (r: Result<ModeConfig, ModeCreationError>)
        ensures
            created(r) == creation(self.creates(), params@),
    ;

    /// Creates a mode from `params`, falling back where the creator has a fallback:
    /// when creation succeeds, its mode is the result.
    fn create_with_fallback(&self, params: &ModeParameters) -> (r: Result<ModeConfig, ModeCreationError>)
        ensures
            creation(self.creates(), params@) is Ok ==> created(r) == creation(self.creates(), params@),
    {
        self.create(params)
    }
}

/// Builds the mode of kind `k` from `params`.
fn create_kind(k: ModeKind, params: &ModeParameters) -> (r: Result<ModeConfig, ModeCreationError>)
    ensures
        created(r) == creation(k, params@),
{
    let name = match k {
        ModeKind::Limited => "limited",
        ModeKind::Capturing => "capturing",
        ModeKind::Window => "window",
        ModeKind::WindowWithTitle => "window_with_title",
    };
    proof {
        reveal_strlit("limited");
        reveal_strlit("capturing");
        reveal_strlit("window");
        reveal_strlit("window_with_title");
        lemma_kind_names_fold(k);
    }
    assert(name@ == kind_name(k));
    match params.validate(name) {
        Err(e) => {
            return Err(e);
        },
        Ok(()) => {},
    }
    match k {
        ModeKind::Limited => Ok(ModeConfig::Limited(Limited::new(params.total_jobs()))),
        ModeKind::Capturing => Ok(ModeConfig::Capturing(Capturing::new(params.total_jobs()))),
        ModeKind::Window => {
            let max_lines = match params.max_lines() {
                Some(n) => n,
                None => {
                    assert(false);
                    0
                },
            };
            match Window::new(params.total_jobs(), max_lines) {
                Ok(w) => Ok(ModeConfig::Window(w)),
                Err(e) => Err(e),
            }
        },
        ModeKind::WindowWithTitle => {
            let max_lines = match params.max_lines() {
                Some(n) => n,
                None => {
                    assert(false);
                    0
                },
            };
            let title = match params.title() {
                Some(t) => owned(t),
                None => owned("Progress"),
            };
            let mut mode = match WindowWithTitle::new(params.total_jobs(), max_lines, title) {
                Ok(m) => m,
                Err(e) => {
                    return Err(e);
                },
            };
            if let Some(emoji_support) = params.emoji_support() {
                mode.set_emoji_support(emoji_support);
            }
            if let Some(title_support) = params.title_support() {
                mode.set_title_support(title_support);
            }
            Ok(ModeConfig::WindowWithTitle(mode))
        },
    }
}

/// Creator for Limited mode.
#[derive(Debug)]
pub struct LimitedCreator;

impl ModeCreator for LimitedCreator {
    open spec fn creates(&self) -> ModeKind {
        ModeKind::Limited
    }

    fn mode_name(&self) -> (r: &'static str) {
        "limited"
    }

    fn kind(&self) -> (r: ModeKind) {
        ModeKind::Limited
    }

    fn create(&self, params: &ModeParameters) -> (r: Result<ModeConfig, ModeCreationError>) {
        let r = create_kind(ModeKind::Limited, params);
        assert(self.creates() == ModeKind::Limited);
        assert(created(r) == creation(ModeKind::Limited, params@));
        r
    }

    /// The same as `create`: this mode has no fallback.
    fn create_with_fallback(&self, params: &ModeParameters) -> (r: Result<ModeConfig, ModeCreationError>)
        ensures
            created(r) == creation(ModeKind::Limited, params@),
    {
        self.create(params)
    }
}

/// Creator for Capturing mode.
#[derive(Debug)]
pub struct CapturingCreator;

impl ModeCreator for CapturingCreator {
    open spec fn creates(&self) -> ModeKind {
        ModeKind::Capturing
    }

    fn mode_name(&self) -> (r: &'static str) {
        "capturing"
    }

    fn kind(&self) -> (r: ModeKind) {
        ModeKind::Capturing
    }

    fn create(&self, params: &ModeParameters) -> (r: Result<ModeConfig, ModeCreationError>) {
        let r = create_kind(ModeKind::Capturing, params);
        assert(self.creates() == ModeKind::Capturing);
        assert(created(r) == creation(ModeKind::Capturing, params@));
        r
    }

    /// The same as `create`: this mode has no fallback.
    fn create_with_fallback(&self, params: &ModeParameters) -> (r: Result<ModeConfig, ModeCreationError>)
        ensures
            created(r) == creation(ModeKind::Capturing, params@),
    {
        self.create(params)
    }
}

/// The parameters with the window size replaced by 3.
pub open spec fn with_size_three(p: ModeParametersView) -> ModeParametersView {
    ModeParametersView { max_lines: Some(3), ..p }
}

/// What the Window creator's fallback gives: the mode when creation succeeds;
/// otherwise a window of 3 lines.
pub open spec fn window_fallback(p: ModeParametersView) -> ModeView {
    match creation(ModeKind::Window, p) {
        Ok(v) => v,
        Err(_) => ModeView::Window(fresh_window(p.total_jobs, 3)),
    }
}

/// Creator for Window mode.
#[derive(Debug)]
pub struct WindowCreator;

impl ModeCreator for WindowCreator {
    open spec fn creates(&self) -> ModeKind {
        ModeKind::Window
    }

    fn mode_name(&self) -> (r: &'static str) {
        "window"
    }

    fn kind(&self) -> (r: ModeKind) {
        ModeKind::Window
    }

    fn create(&self, params: &ModeParameters) -> (r: Result<ModeConfig, ModeCreationError>) {
        let r = create_kind(ModeKind::Window, params);
        assert(self.creates() == ModeKind::Window);
        assert(created(r) == creation(ModeKind::Window, params@));
        r
    }

    /// On failure, a window of 3 lines for the same jobs.
    fn create_with_fallback(&self, params: &ModeParameters) -> (r: Result<ModeConfig, ModeCreationError>)
        ensures
            r matches Ok(m) && m@ == window_fallback(params@),
    {
        let result = self.create(params);
        match result {
            Ok(m) => Ok(m),
            Err(_) => match Window::new(params.total_jobs(), 3) {
                Ok(w) => Ok(ModeConfig::Window(w)),
                Err(_) => Ok(ModeConfig::Limited(Limited::new(params.total_jobs()))),
            },
        }
    }
}

/// What the WindowWithTitle creator's fallback gives: the mode when creation
/// succeeds; otherwise a titled window of 3 lines with the given title (or
/// `"Progress"`) and support flags.
pub open spec fn titled_fallback(p: ModeParametersView) -> ModeView {
    match creation(ModeKind::WindowWithTitle, p) {
        Ok(v) => v,
        Err(_) => built_mode(
            ModeKind::WindowWithTitle,
            ModeParametersView { max_lines: Some(3), ..p },
        ),
    }
}

/// Creator for WindowWithTitle mode.
#[derive(Debug)]
pub struct WindowWithTitleCreator;

impl ModeCreator for WindowWithTitleCreator {
    open spec fn creates(&self) -> ModeKind {
        ModeKind::WindowWithTitle
    }

    fn mode_name(&self) -> (r: &'static str) {
        "window_with_title"
    }

    fn kind(&self) -> (r: ModeKind) {
        ModeKind::WindowWithTitle
    }

    fn create(&self, params: &ModeParameters) -> (r: Result<ModeConfig, ModeCreationError>) {
        let r = create_kind(ModeKind::WindowWithTitle, params);
        assert(self.creates() == ModeKind::WindowWithTitle);
        assert(created(r) == creation(ModeKind::WindowWithTitle, params@));
        r
    }

    /// On failure, a titled window of 3 lines with the same title and flags.
    fn create_with_fallback(&self, params: &ModeParameters) -> (r: Result<ModeConfig, ModeCreationError>)
        ensures
            r matches Ok(m) && m@ == titled_fallback(params@),
    {
        let result = self.create(params);
        match result {
            Ok(m) => Ok(m),
            Err(_) => {
                let title = match params.title() {
                    Some(t) => owned(t),
                    None => owned("Progress"),
                };
                match WindowWithTitle::new(params.total_jobs(), 3, title) {
                    Ok(mut window) => {
                        if let Some(emoji_support) = params.emoji_support() {
                            window.set_emoji_support(emoji_support);
                        }
                        if let Some(title_support) = params.title_support() {
                            window.set_title_support(title_support);
                        }
                        Ok(ModeConfig::WindowWithTitle(window))
                    },
                    Err(_) => Ok(ModeConfig::Limited(Limited::new(params.total_jobs()))),
                }
            },
        }
    }
}

/// Whether no kind occurs twice in `s`.
pub open spec fn distinct_kinds(s: Seq<ModeKind>) -> bool {
    forall|i: int, j: int| 0 <= i < j < s.len() ==> s[i] != s[j]
}

/// The kinds after a creator of kind `k` registers: a kind registered before
/// stays where it is; a new one comes last.
pub open spec fn with_kind(s: Seq<ModeKind>, k: ModeKind) -> Seq<ModeKind> {
    if s.contains(k) {
        s
    } else {
        s.push(k)
    }
}

/// Registering a creator twice is registering it once, and a registry never holds
/// a kind twice.
pub proof fn law_register_idempotent(s: Seq<ModeKind>, k: ModeKind)
    requires
        distinct_kinds(s),
    ensures
        with_kind(with_kind(s, k), k) == with_kind(s, k),
        distinct_kinds(with_kind(s, k)),
{
    if !s.contains(k) {
        assert(s.push(k)[s.len() as int] == k);
    }
}

/// The index of the kind registered under `name`, if any.
pub open spec fn registered_index(s: Seq<ModeKind>, name: Seq<char>) -> Option<int> {
    if exists|i: int| 0 <= i < s.len() && kind_name(#[trigger] s[i]) == name {
        Some(choose|i: int| 0 <= i < s.len() && kind_name(#[trigger] s[i]) == name)
    } else {
        None
    }
}

/// What the registry `s` gives for `create(name, p)`: refused for a name not
/// registered, with the registered names; else the validation error for `name`,
/// if any; else what the registered creator gives.
pub open spec fn registry_creation(s: Seq<ModeKind>, name: Seq<char>, p: ModeParametersView) -> Result<ModeView, ModeErrorView> {
    match registered_index(s, name) {
        None => Err(ModeErrorView::ModeNotRegistered {
            mode_name: name,
            available_modes: s.map_values(|k: ModeKind| kind_name(k)),
        }),
        Some(i) => match validation_error(p, name) {
            Some(e) => Err(e),
            None => creation(s[i], p),
        },
    }
}

/// The registry of mode creators, by the kinds they make, in registration order.
#[derive(Debug)]
pub struct ModeRegistry {
    creators: Vec<ModeKind>,
}

impl View for ModeRegistry {
    type V = Seq<ModeKind>;

    closed spec fn view(&self) -> Seq<ModeKind> {
        self.creators@
    }
}

impl ModeRegistry {
    /// No creator is registered twice.
    #[verifier::type_invariant]
    spec fn wf(self) -> bool {
        distinct_kinds(self.creators@)
    }

    /// An empty registry.
    pub fn new() -> (r: Self)
        ensures
            r@ == Seq::<ModeKind>::empty(),
    {
        ModeRegistry { creators: Vec::new() }
    }

    /// Registers `creator` under its mode name; a creator registered under the same
    /// name before is replaced.
    pub fn register<T: ModeCreator>(&mut self, creator: T)
        ensures
            distinct_kinds(final(self)@),
            final(self)@ == with_kind(old(self)@, creator.creates()),
    {
        proof {
            use_type_invariant(&*self);
        }
        let k = creator.kind();
        let mut i: usize = 0;
        while i < self.creators.len()
            invariant
                i <= self.creators@.len(),
                self.creators@ == old(self).creators@,
                k == creator.creates(),
                distinct_kinds(self.creators@),
                forall|j: int| 0 <= j < i ==> self.creators@[j] != k,
            decreases self.creators@.len() - i,
        {
            if self.creators[i] == k {
                assert(old(self)@[i as int] == k);
                return;
            }
            i = i + 1;
        }
        assert(!old(self)@.contains(k));
        let mut kinds: Vec<ModeKind> = Vec::new();
        std::mem::swap(&mut kinds, &mut self.creators);
        kinds.push(k);
        self.creators = kinds;
    }

    /// The number of registered creators.
    pub fn len(&self) -> (r: usize)
        ensures
            r == self@.len(),
    {
        self.creators.len()
    }

    /// Whether a creator is registered under `name`.
    pub fn contains(&self, name: &str) -> (r: bool)
        ensures
            r == (registered_index(self@, name@) is Some),
    {
        match self.find(name) {
            Some(_) => true,
            None => false,
        }
    }

    /// The registered mode names, in registration order.
    pub fn mode_names(&self) -> (r: Vec<String>)
        ensures
            strings(r@) == self@.map_values(|k: ModeKind| kind_name(k)),
    {
        let mut names: Vec<String> = Vec::new();
        let mut i: usize = 0;
        while i < self.creators.len()
            invariant
                i <= self.creators@.len(),
                strings(names@) == self@.take(i as int).map_values(|k: ModeKind| kind_name(k)),
            decreases self.creators@.len() - i,
        {
            let n = match self.creators[i] {
                ModeKind::Limited => owned("limited"),
                ModeKind::Capturing => owned("capturing"),
                ModeKind::Window => owned("window"),
                ModeKind::WindowWithTitle => owned("window_with_title"),
            };
            let ghost before = strings(names@);
            names.push(n);
            proof {
                assert(strings(names@) =~= before.push(n@));
                assert(self@.take(i as int + 1).map_values(|k: ModeKind| kind_name(k)) =~= self@.take(
                    i as int,
                ).map_values(|k: ModeKind| kind_name(k)).push(kind_name(self@[i as int])));
            }
            i = i + 1;
        }
        assert(self@.take(self@.len() as int) =~= self@);
        names
    }

    /// The kind registered under `name`.
    fn find(&self, name: &str) -> (r: Option<ModeKind>)
        ensures
            match registered_index(self@, name@) {
                Some(i) => r == Some(self@[i]),
                None => r is None,
            },
            r matches Some(k) ==> kind_name(k) == name@,
    {
        let mut i: usize = 0;
        while i < self.creators.len()
            invariant
                i <= self.creators@.len(),
                forall|j: int| 0 <= j < i ==> kind_name(#[trigger] self@[j]) != name@,
            decreases self.creators@.len() - i,
        {
            let k = self.creators[i];
            let n = match k {
                ModeKind::Limited => "limited",
                ModeKind::Capturing => "capturing",
                ModeKind::Window => "window",
                ModeKind::WindowWithTitle => "window_with_title",
            };
            proof {
                reveal_strlit("limited");
                reveal_strlit("capturing");
                reveal_strlit("window");
                reveal_strlit("window_with_title");
            }
            assert(n@ == kind_name(k));
            if str_eq(n, name) {
                proof {
                    assert(kind_name(self@[i as int]) == name@);
                    let c = choose|j: int| 0 <= j < self@.len() && kind_name(#[trigger] self@[j]) == name@;
                    lemma_kind_name_injective(self@[c], k);
                }
                return Some(k);
            }
            i = i + 1;
        }
        None
    }

    /// Creates the mode registered under `mode_name` from `params`.
    pub fn create(&self, mode_name: &str, params: &ModeParameters) -> (r: Result<ModeConfig, ModeCreationError>)
        ensures
            created(r) == registry_creation(self@, mode_name@, params@),
    {
        match self.find(mode_name) {
            None => {
                let available = self.mode_names();
                Err(ModeCreationError::ModeNotRegistered { mode_name: owned(mode_name), available_modes: available })
            },
            Some(k) => {
                match params.validate(mode_name) {
                    Err(e) => {
                        return Err(e);
                    },
                    Ok(()) => {},
                }
                create_kind(k, params)
            },
        }
    }

    /// Creates a mode from a `ThreadMode`: the mode's name and its parameters for
    /// `total_jobs` jobs (a titled window gets the title `"Progress"`).
    pub fn create_from_mode(&self, mode: ThreadMode, total_jobs: usize) -> (r: Result<ModeConfig, ModeCreationError>)
        ensures
            created(r) == registry_creation(self@, thread_mode_name(mode), thread_mode_params(mode, total_jobs)),
    {
        create_by_mode(self, mode, total_jobs)
    }
}

/// The kind names are distinct.
proof fn lemma_kind_name_injective(a: ModeKind, b: ModeKind)
    requires
        kind_name(a) == kind_name(b),
    ensures
        a == b,
{
    reveal_strlit("limited");
    reveal_strlit("capturing");
    reveal_strlit("window");
    reveal_strlit("window_with_title");
    assert(kind_name(ModeKind::Limited).len() == 7);
    assert(kind_name(ModeKind::Capturing).len() == 9);
    assert(kind_name(ModeKind::Window).len() == 6);
    assert(kind_name(ModeKind::WindowWithTitle).len() == 17);
}

/// The name under which a `ThreadMode` is created.
pub open spec fn thread_mode_name(mode: ThreadMode) -> Seq<char> {
    match mode {
        ThreadMode::Limited => "limited"@,
        ThreadMode::Capturing => "capturing"@,
        ThreadMode::Window(_) => "window"@,
        ThreadMode::WindowWithTitle(_) => "window_with_title"@,
    }
}

/// The parameters a `ThreadMode` is created from.
pub open spec fn thread_mode_params(mode: ThreadMode, total_jobs: usize) -> ModeParametersView {
    match mode {
        ThreadMode::Limited => crate::mode_parameters::plain_params(total_jobs),
        ThreadMode::Capturing => crate::mode_parameters::plain_params(total_jobs),
        ThreadMode::Window(n) => ModeParametersView {
            max_lines: Some(n),
            ..crate::mode_parameters::plain_params(total_jobs)
        },
        ThreadMode::WindowWithTitle(n) => ModeParametersView {
            max_lines: Some(n),
            title: Some("Progress"@),
            emoji_support: Some(true),
            title_support: Some(true),
            ..crate::mode_parameters::plain_params(total_jobs)
        },
    }
}

fn create_by_mode(registry: &ModeRegistry, mode: ThreadMode, total_jobs: usize) -> (r: Result<ModeConfig, ModeCreationError>)
    ensures
        created(r) == registry_creation(registry@, thread_mode_name(mode), thread_mode_params(mode, total_jobs)),
{
    proof {
        reveal_strlit("limited");
        reveal_strlit("capturing");
        reveal_strlit("window");
        reveal_strlit("window_with_title");
        reveal_strlit("Progress");
    }
    match mode {
        ThreadMode::Limited => registry.create("limited", &ModeParameters::limited(total_jobs)),
        ThreadMode::Capturing => registry.create("capturing", &ModeParameters::capturing(total_jobs)),
        ThreadMode::Window(n) => registry.create("window", &ModeParameters::window(total_jobs, n)),
        ThreadMode::WindowWithTitle(n) => registry.create(
            "window_with_title",
            &ModeParameters::window_with_title(total_jobs, n, owned("Progress")),
        ),
    }
}

/// What `create_mode` gives when errors are not propagated: for a window size the
/// mode refuses, the same mode with 3 lines; for a titled window that still fails,
/// a plain window of 3 lines; and last, Limited mode.
pub open spec fn creation_with_fallbacks(s: Seq<ModeKind>, mode: ThreadMode, total_jobs: usize) -> Result<ModeView, ModeErrorView> {
    let first = registry_creation(s, thread_mode_name(mode), thread_mode_params(mode, total_jobs));
    match mode {
        ThreadMode::Window(_) => if first is Ok {
            first
        } else {
            registry_creation(s, "window"@, thread_mode_params(ThreadMode::Window(3), total_jobs))
        },
        ThreadMode::WindowWithTitle(_) => if first is Ok {
            first
        } else {
            let second = registry_creation(
                s,
                "window_with_title"@,
                thread_mode_params(ThreadMode::WindowWithTitle(3), total_jobs),
            );
            if second is Ok {
                second
            } else {
                let third = registry_creation(s, "window"@, thread_mode_params(ThreadMode::Window(3), total_jobs));
                if third is Ok {
                    third
                } else {
                    registry_creation(s, "limited"@, thread_mode_params(ThreadMode::Limited, total_jobs))
                }
            }
        },
        _ => first,
    }
}

/// The kinds a factory made by `ModeFactory::new` registers, in order.
pub open spec fn standard_kinds() -> Seq<ModeKind> {
    seq![ModeKind::Limited, ModeKind::Capturing, ModeKind::Window, ModeKind::WindowWithTitle]
}

proof fn lemma_standard_creates(k: ModeKind, p: ModeParametersView)
    requires
        validation_error(p, kind_name(k)) is None,
    ensures
        registry_creation(standard_kinds(), kind_name(k), p) is Ok,
{
    let s = standard_kinds();
    let i: int = match k {
        ModeKind::Limited => 0,
        ModeKind::Capturing => 1,
        ModeKind::Window => 2,
        ModeKind::WindowWithTitle => 3,
    };
    assert(kind_name(s[i]) == kind_name(k));
    let j = choose|j: int| 0 <= j < s.len() && kind_name(#[trigger] s[j]) == kind_name(k);
    lemma_kind_name_injective(s[j], k);
}

/// With the standard modes and errors not propagated, creating a mode for at
/// least one job always succeeds: a window size that is refused falls back.
pub proof fn law_fallbacks_always_create(mode: ThreadMode, total_jobs: usize)
    requires
        total_jobs > 0,
    ensures
        creation_with_fallbacks(standard_kinds(), mode, total_jobs) is Ok,
{
    reveal_strlit("limited");
    reveal_strlit("capturing");
    reveal_strlit("window");
    reveal_strlit("window_with_title");
    reveal_strlit("windowwithtitle");
    reveal_strlit("Progress");
    lemma_kind_names_fold(ModeKind::Limited);
    lemma_kind_names_fold(ModeKind::Capturing);
    lemma_kind_names_fold(ModeKind::Window);
    lemma_kind_names_fold(ModeKind::WindowWithTitle);
    match mode {
        ThreadMode::Limited => {
            lemma_standard_creates(ModeKind::Limited, thread_mode_params(mode, total_jobs));
        },
        ThreadMode::Capturing => {
            lemma_standard_creates(ModeKind::Capturing, thread_mode_params(mode, total_jobs));
        },
        ThreadMode::Window(_) => {
            lemma_standard_creates(ModeKind::Window, thread_mode_params(ThreadMode::Window(3), total_jobs));
        },
        ThreadMode::WindowWithTitle(_) => {
            lemma_standard_creates(
                ModeKind::WindowWithTitle,
                thread_mode_params(ThreadMode::WindowWithTitle(3), total_jobs),
            );
        },
    }
}

/// A factory with the standard modes makes from a `ThreadMode` the very mode that
/// `Config::new` makes for it, for every window size those modes accept and any
/// positive number of jobs.
pub proof fn law_factory_matches_config(mode: ThreadMode, total_jobs: usize)
    requires
        total_jobs > 0,
        mode_for(mode, total_jobs) is Ok,
    ensures
        registry_creation(standard_kinds(), thread_mode_name(mode), thread_mode_params(mode, total_jobs)) == mode_for(
            mode,
            total_jobs,
        ),
{
    reveal_strlit("limited");
    reveal_strlit("capturing");
    reveal_strlit("window");
    reveal_strlit("window_with_title");
    reveal_strlit("windowwithtitle");
    reveal_strlit("Progress");
    lemma_kind_names_fold(ModeKind::Limited);
    lemma_kind_names_fold(ModeKind::Capturing);
    lemma_kind_names_fold(ModeKind::Window);
    lemma_kind_names_fold(ModeKind::WindowWithTitle);
    let k = match mode {
        ThreadMode::Limited => ModeKind::Limited,
        ThreadMode::Capturing => ModeKind::Capturing,
        ThreadMode::Window(_) => ModeKind::Window,
        ThreadMode::WindowWithTitle(_) => ModeKind::WindowWithTitle,
    };
    assert(thread_mode_name(mode) == kind_name(k));
    let p = thread_mode_params(mode, total_jobs);
    lemma_standard_creates(k, p);
    let s = standard_kinds();
    let j = choose|j: int| 0 <= j < s.len() && kind_name(#[trigger] s[j]) == kind_name(k);
    lemma_kind_name_injective(s[j], k);
}

/// The abstract state of a factory.
pub struct FactoryState {
    pub registry: Seq<ModeKind>,
    pub default_mode: ThreadMode,
    pub propagate_errors: bool,
}

/// Creates mode instances from a registry of creators.
#[derive(Debug)]
pub struct ModeFactory {
    registry: Arc<ModeRegistry>,
    default_mode: ThreadMode,
    propagate_errors: bool,
}

impl View for ModeFactory {
    type V = FactoryState;

    closed spec fn view(&self) -> FactoryState {
        FactoryState {
            registry: self.registry@,
            default_mode: self.default_mode,
            propagate_errors: self.propagate_errors,
        }
    }
}

/// Shares `registry` with `Arc::clone`: the new handle points at the same registry.
#[verifier::external_body]
fn share_registry(registry: &Arc<ModeRegistry>) -> (r: Arc<ModeRegistry>)
    ensures
        r == *registry,
{
    Arc::clone(registry)
}

impl Clone for ModeFactory {
    /// A factory with the same registry, default mode and error handling; the
    /// registry is shared, the settings are the clone's own.
    fn clone(&self) -> (r: Self)
        ensures
            r@ == self@,
    {
        ModeFactory {
            registry: share_registry(&self.registry),
            default_mode: self.default_mode,
            propagate_errors: self.propagate_errors,
        }
    }
}

impl ModeFactory {
    /// A factory over `registry`, with Limited as its default mode; errors are
    /// recovered from with fallbacks.
    pub fn with_registry(registry: Arc<ModeRegistry>) -> (r: Self)
        ensures
            r@ == (FactoryState {
                registry: registry@,
                default_mode: ThreadMode::Limited,
                propagate_errors: false,
            }),
    {
        ModeFactory { registry, default_mode: ThreadMode::Limited, propagate_errors: false }
    }

    /// A factory with the four standard modes.
    pub fn new() -> (r: Self)
        ensures
            r@ == (FactoryState {
                registry: standard_kinds(),
                default_mode: ThreadMode::Limited,
                propagate_errors: false,
            }),
    {
        let mut registry = ModeRegistry::new();
        registry.register(LimitedCreator);
        registry.register(CapturingCreator);
        registry.register(WindowCreator);
        registry.register(WindowWithTitleCreator);
        assert(registry@ =~= seq![
            ModeKind::Limited,
            ModeKind::Capturing,
            ModeKind::Window,
            ModeKind::WindowWithTitle,
        ]);
        Self::with_registry(Arc::new(registry))
    }

    /// A factory whose registry is an empty one that `f` has filled, with Limited as
    /// its default mode; errors are recovered from with fallbacks.
    pub fn with_modes<F: FnOnce(&mut ModeRegistry)>(f: F) -> (r: Self)
        requires
            forall|reg: &mut ModeRegistry| #[trigger] f.requires((reg,)),
        ensures
            r@.default_mode == ThreadMode::Limited,
            !r@.propagate_errors,
            exists|reg: &mut ModeRegistry|
                (*reg)@ == Seq::<ModeKind>::empty() && #[trigger] f.ensures((reg,), ()) && (*final(reg))@
                    == r@.registry,
    {
        let mut registry = ModeRegistry::new();
        f(&mut registry);
        Self::with_registry(Arc::new(registry))
    }

    /// Set the default mode.
    pub fn set_default_mode(&mut self, mode: ThreadMode)
        ensures
            final(self)@ == (FactoryState { default_mode: mode, ..old(self)@ }),
    {
        self.default_mode = mode;
    }

    /// The default mode.
    pub fn default_mode(&self) -> (r: ThreadMode)
        ensures
            r == self@.default_mode,
    {
        self.default_mode
    }

    /// Set whether refused configurations are reported as errors instead of being
    /// replaced by fallbacks.
    pub fn set_error_propagation(&mut self, propagate: bool)
        ensures
            final(self)@ == (FactoryState { propagate_errors: propagate, ..old(self)@ }),
    {
        self.propagate_errors = propagate;
    }

    /// Whether refused configurations are reported as errors.
    pub fn should_propagate_errors(&self) -> (r: bool)
        ensures
            r == self@.propagate_errors,
    {
        self.propagate_errors
    }

    /// The registry of this factory.
    pub fn registry(&self) -> (r: &ModeRegistry)
        ensures
            r@ == self@.registry,
    {
        &self.registry
    }

    /// Creates `mode` for `total_jobs` jobs. When errors are propagated this is the
    /// registry's creation; otherwise window sizes that are refused fall back as
    /// `creation_with_fallbacks` says.
    pub fn create_mode(&self, mode: ThreadMode, total_jobs: usize) -> (r: Result<ModeConfig, ModeCreationError>)
        ensures
            created(r) == if self@.propagate_errors {
                registry_creation(self@.registry, thread_mode_name(mode), thread_mode_params(mode, total_jobs))
            } else {
                creation_with_fallbacks(self@.registry, mode, total_jobs)
            },
    {
        let registry: &ModeRegistry = &self.registry;
        let first = create_by_mode(registry, mode, total_jobs);
        if self.propagate_errors {
            return first;
        }
        match mode {
            ThreadMode::Window(_) => {
                if first.is_ok() {
                    first
                } else {
                    create_by_mode(registry, ThreadMode::Window(3), total_jobs)
                }
            },
            ThreadMode::WindowWithTitle(_) => {
                if first.is_ok() {
                    first
                } else {
                    let second = create_by_mode(registry, ThreadMode::WindowWithTitle(3), total_jobs);
                    if second.is_ok() {
                        second
                    } else {
                        let third = create_by_mode(registry, ThreadMode::Window(3), total_jobs);
                        if third.is_ok() {
                            third
                        } else {
                            create_by_mode(registry, ThreadMode::Limited, total_jobs)
                        }
                    }
                }
            },
            _ => first,
        }
    }
}

} // verus!
