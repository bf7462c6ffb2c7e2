//! The modal overlays layered over the client's screens: `/connect`, `/models`, and help.
//!
//! Each modal is a state enum plus a pure key-transition function, so the whole state machine is
//! stated without a terminal, a keyring, or the network. The client owns at most one modal at a
//! time through a [`ModalHost`], which also owns the counter that invalidates a model-list fetch
//! the open modal has walked away from.

use vstd::prelude::*;

use crate::keys::{KeyCode, KeyEvent, is_retry, retry_key, ctrl_char};
use crate::selection::{keyed, takes_key};
use crate::text::{chars_of, slice_chars, str_eq, string_of, trim, trim_chars};

verus! {

/// One row of the connect modal's provider list: the provider id and whether a key (or, for
/// Ollama, the opt-in) is already configured for it.
#[derive(Clone, PartialEq, Eq, Debug)]
pub struct ProviderRow {
    pub id: String,
    pub connected: bool,
}

/// The connect modal's step. `rows` is carried through every step so "back" navigation can
/// rebuild the provider list without re-reading the credential store. The key typed on
/// `KeyEntry` is a secret, so this type offers [`ConnectStep::redacted_debug`] and no `Debug`.
#[derive(Clone, PartialEq, Eq)]
pub enum ConnectStep {
    ProviderList { rows: Vec<ProviderRow>, selected: usize },
    KeyEntry { rows: Vec<ProviderRow>, provider: String, input: String },
    ModelList {
        rows: Vec<ProviderRow>,
        provider: String,
        models: Vec<String>,
        selected: usize,
        fetching: bool,
        error: Option<String>,
        /// Whether the list was reached by typing a key; decides where Esc leads.
        from_key: bool,
    },
}

/// The `/models` modal's step.
#[derive(Clone, PartialEq, Eq, Debug)]
pub enum ModelsStep {
    ModelList { provider: String, models: Vec<String>, selected: usize, fetching: bool },
    /// A transport-class fetch failure: a retry, plus an explicitly unverified typed id.
    Manual { provider: String, input: String, error: Option<String> },
    /// A credential-class fetch failure: shows the remedy and takes no input.
    Credentials { provider: String, error: String },
    Offline,
}

/// The one overlay that owns the keyboard, if any.
#[derive(Clone, PartialEq, Eq)]
pub enum Modal {
    Help,
    Connect(ConnectStep),
    Models(ModelsStep),
}

/// What an applying transition commits: `/connect` adopts a provider and pins its model;
/// `/models` only re-pins the model of the already-active provider, recording whether the id
/// came from the provider's own list.
#[derive(Clone, PartialEq, Eq, Debug)]
pub enum ModalApply {
    Provider { provider: String, model: String },
    Model { provider: String, model: String, verified: bool },
}

/// Which event a model-list fetch reports back on.
#[derive(Debug, Clone, Copy, PartialEq, Eq, Structural)]
pub enum FetchSink {
    Connect,
    Models,
}

/// The result of stepping a modal: a new state, a commit, or closing.
#[derive(Clone, PartialEq, Eq)]
pub enum ModalTransition {
    Step(Modal),
    Apply(ModalApply),
    Close,
}

/// The model of a [`ProviderRow`].
pub struct ProviderRowV {
    pub id: Seq<char>,
    pub connected: bool,
}

/// The model of a [`ConnectStep`].
pub enum ConnectStepV {
    ProviderList { rows: Seq<ProviderRowV>, selected: int },
    KeyEntry { rows: Seq<ProviderRowV>, provider: Seq<char>, input: Seq<char> },
    ModelList {
        rows: Seq<ProviderRowV>,
        provider: Seq<char>,
        models: Seq<Seq<char>>,
        selected: int,
        fetching: bool,
        error: Option<Seq<char>>,
        from_key: bool,
    },
}

/// The model of a [`ModelsStep`].
pub enum ModelsStepV {
    ModelList { provider: Seq<char>, models: Seq<Seq<char>>, selected: int, fetching: bool },
    Manual { provider: Seq<char>, input: Seq<char>, error: Option<Seq<char>> },
    Credentials { provider: Seq<char>, error: Seq<char> },
    Offline,
}

/// The model of a [`Modal`].
pub enum ModalV {
    Help,
    Connect(ConnectStepV),
    Models(ModelsStepV),
}

/// The model of a [`ModalApply`].
pub enum ModalApplyV {
    Provider { provider: Seq<char>, model: Seq<char> },
    Model { provider: Seq<char>, model: Seq<char>, verified: bool },
}

/// The model of a [`ModalTransition`].
pub enum TransitionV {
    Step(ModalV),
    Apply(ModalApplyV),
    Close,
}

/// The views of a list of strings.
pub open spec fn strs_v(v: Seq<String>) -> Seq<Seq<char>> {
    v.map_values(|s: String| s@)
}

/// The view of an optional string.
pub open spec fn opt_str_v(o: Option<String>) -> Option<Seq<char>> {
    match o {
        Some(s) => Some(s@),
        None => None,
    }
}

/// The views of a list of provider rows.
pub open spec fn rows_v(rows: Seq<ProviderRow>) -> Seq<ProviderRowV> {
    rows.map_values(|r: ProviderRow| r@)
}

impl View for ProviderRow {
    type V = ProviderRowV;

    open spec fn view(&self) -> ProviderRowV {
        ProviderRowV { id: self.id@, connected: self.connected }
    }
}

impl View for ConnectStep {
    type V = ConnectStepV;

    open spec fn view(&self) -> ConnectStepV {
        match self {
            ConnectStep::ProviderList { rows, selected } => ConnectStepV::ProviderList {
                rows: rows_v(rows@),
                selected: *selected as int,
            },
            ConnectStep::KeyEntry { rows, provider, input } => ConnectStepV::KeyEntry {
                rows: rows_v(rows@),
                provider: provider@,
                input: input@,
            },
            ConnectStep::ModelList {
                rows,
                provider,
                models,
                selected,
                fetching,
                error,
                from_key,
            } => ConnectStepV::ModelList {
                rows: rows_v(rows@),
                provider: provider@,
                models: strs_v(models@),
                selected: *selected as int,
                fetching: *fetching,
                error: opt_str_v(*error),
                from_key: *from_key,
            },
        }
    }
}

impl View for ModelsStep {
    type V = ModelsStepV;

    open spec fn view(&self) -> ModelsStepV {
        match self {
            ModelsStep::ModelList { provider, models, selected, fetching } =>
                ModelsStepV::ModelList {
                provider: provider@,
                models: strs_v(models@),
                selected: *selected as int,
                fetching: *fetching,
            },
            ModelsStep::Manual { provider, input, error } => ModelsStepV::Manual {
                provider: provider@,
                input: input@,
                error: opt_str_v(*error),
            },
            ModelsStep::Credentials { provider, error } => ModelsStepV::Credentials {
                provider: provider@,
                error: error@,
            },
            ModelsStep::Offline => ModelsStepV::Offline,
        }
    }
}

impl View for Modal {
    type V = ModalV;

    open spec fn view(&self) -> ModalV {
        match self {
            Modal::Help => ModalV::Help,
            Modal::Connect(step) => ModalV::Connect(step@),
            Modal::Models(step) => ModalV::Models(step@),
        }
    }
}

impl View for ModalApply {
    type V = ModalApplyV;

    open spec fn view(&self) -> ModalApplyV {
        match self {
            ModalApply::Provider { provider, model } => ModalApplyV::Provider {
                provider: provider@,
                model: model@,
            },
            ModalApply::Model { provider, model, verified } => ModalApplyV::Model {
                provider: provider@,
                model: model@,
                verified: *verified,
            },
        }
    }
}

impl View for ModalTransition {
    type V = TransitionV;

    open spec fn view(&self) -> TransitionV {
        match self {
            ModalTransition::Step(m) => TransitionV::Step(m@),
            ModalTransition::Apply(a) => TransitionV::Apply(a@),
            ModalTransition::Close => TransitionV::Close,
        }
    }
}

/// Moving a list selection by `delta` within `len` rows, wrapping at both ends; 0 for an empty
/// list.
pub open spec fn cycle(current: int, len: int, delta: int) -> int {
    if len == 0 {
        0
    } else if current + delta < 0 {
        len - 1
    } else if current + delta >= len {
        0
    } else {
        current + delta
    }
}

/// The index of the first row whose id is `id`.
pub open spec fn find_row(rows: Seq<ProviderRowV>, id: Seq<char>) -> Option<int>
    decreases rows.len(),
{
    if rows.len() == 0 {
        None
    } else if rows[0].id == id {
        Some(0)
    } else {
        match find_row(rows.drop_first(), id) {
            Some(i) => Some(i + 1),
            None => None,
        }
    }
}

/// The row a provider list returns to for `id`: its position, or the top.
pub open spec fn row_position(rows: Seq<ProviderRowV>, id: Seq<char>) -> int {
    match find_row(rows, id) {
        Some(i) => i,
        None => 0,
    }
}

/// `s` without its last character (unchanged when empty).
pub open spec fn pop_last(s: Seq<char>) -> Seq<char> {
    if s.len() > 0 {
        s.drop_last()
    } else {
        s
    }
}

/// A connect step that stays inside the connect modal.
pub open spec fn connect_to(s: ConnectStepV) -> TransitionV {
    TransitionV::Step(ModalV::Connect(s))
}

/// A models step that stays inside the models modal.
pub open spec fn models_to(s: ModelsStepV) -> TransitionV {
    TransitionV::Step(ModalV::Models(s))
}

/// An empty connect model list for `provider`, waiting on its fetch.
pub open spec fn awaiting_connect_list(
    rows: Seq<ProviderRowV>,
    provider: Seq<char>,
    from_key: bool,
) -> ConnectStepV {
    ConnectStepV::ModelList {
        rows,
        provider,
        models: Seq::empty(),
        selected: 0,
        fetching: true,
        error: None,
        from_key,
    }
}

/// The retry: a step back to an empty `/models` list for `provider`, waiting on a fetch.
pub open spec fn refetched(provider: Seq<char>) -> TransitionV {
    models_to(
        ModelsStepV::ModelList { provider, models: Seq::empty(), selected: 0, fetching: true },
    )
}

/// The help modal's transition: Esc and Ctrl+P close it, every other key is ignored.
pub open spec fn help_next(key: KeyEvent) -> TransitionV {
    if key.code == KeyCode::Esc || crate::keys::is_ctrl_char(key, 'p') {
        TransitionV::Close
    } else {
        TransitionV::Step(ModalV::Help)
    }
}

/// The connect modal's transition.
pub open spec fn connect_next(s: ConnectStepV, key: KeyEvent) -> TransitionV {
    match s {
        ConnectStepV::ProviderList { rows, selected } => match key.code {
            KeyCode::Esc => TransitionV::Close,
            KeyCode::Up => connect_to(
                ConnectStepV::ProviderList { rows, selected: cycle(selected, rows.len() as int, -1) },
            ),
            KeyCode::Down => connect_to(
                ConnectStepV::ProviderList { rows, selected: cycle(selected, rows.len() as int, 1) },
            ),
            KeyCode::Enter => if 0 <= selected < rows.len() {
                if rows[selected].connected || rows[selected].id == "ollama"@ {
                    connect_to(awaiting_connect_list(rows, rows[selected].id, false))
                } else {
                    connect_to(
                        ConnectStepV::KeyEntry {
                            rows,
                            provider: rows[selected].id,
                            input: Seq::empty(),
                        },
                    )
                }
            } else {
                connect_to(s)
            },
            _ => connect_to(s),
        },
        ConnectStepV::KeyEntry { rows, provider, input } => match key.code {
            KeyCode::Esc => connect_to(
                ConnectStepV::ProviderList { rows, selected: row_position(rows, provider) },
            ),
            KeyCode::Enter => if trim(input).len() > 0 {
                connect_to(awaiting_connect_list(rows, provider, true))
            } else {
                connect_to(s)
            },
            KeyCode::Backspace => connect_to(
                ConnectStepV::KeyEntry { rows, provider, input: pop_last(input) },
            ),
            KeyCode::Char(c) => connect_to(
                ConnectStepV::KeyEntry { rows, provider, input: input.push(c) },
            ),
            _ => connect_to(s),
        },
        ConnectStepV::ModelList { rows, provider, models, selected, fetching, error, from_key } =>
            match key.code {
            KeyCode::Esc => if !fetching && keyed(provider) && (from_key || error is Some) {
                connect_to(ConnectStepV::KeyEntry { rows, provider, input: Seq::empty() })
            } else {
                connect_to(
                    ConnectStepV::ProviderList { rows, selected: row_position(rows, provider) },
                )
            },
            KeyCode::Enter => if !fetching && 0 <= selected < models.len() {
                TransitionV::Apply(ModalApplyV::Provider { provider, model: models[selected] })
            } else {
                connect_to(s)
            },
            KeyCode::Up => connect_to(
                ConnectStepV::ModelList {
                    rows,
                    provider,
                    models,
                    selected: cycle(selected, models.len() as int, -1),
                    fetching,
                    error,
                    from_key,
                },
            ),
            KeyCode::Down => connect_to(
                ConnectStepV::ModelList {
                    rows,
                    provider,
                    models,
                    selected: cycle(selected, models.len() as int, 1),
                    fetching,
                    error,
                    from_key,
                },
            ),
            _ => connect_to(s),
        },
    }
}

/// The `/models` modal's transition.
pub open spec fn models_next(s: ModelsStepV, key: KeyEvent) -> TransitionV {
    match s {
        ModelsStepV::Offline => if key.code == KeyCode::Esc || key.code == KeyCode::Enter {
            TransitionV::Close
        } else {
            models_to(s)
        },
        ModelsStepV::Credentials { provider, error } => if is_retry(key) {
            refetched(provider)
        } else if key.code == KeyCode::Esc || key.code == KeyCode::Enter {
            TransitionV::Close
        } else {
            models_to(s)
        },
        ModelsStepV::ModelList { provider, models, selected, fetching } => if fetching {
            if key.code == KeyCode::Esc {
                TransitionV::Close
            } else {
                models_to(s)
            }
        } else if models.len() == 0 {
            if key.code == KeyCode::Esc {
                TransitionV::Close
            } else if is_retry(key) {
                refetched(provider)
            } else {
                models_to(s)
            }
        } else {
            match key.code {
                KeyCode::Esc => TransitionV::Close,
                KeyCode::Enter => if 0 <= selected < models.len() {
                    TransitionV::Apply(
                        ModalApplyV::Model { provider, model: models[selected], verified: true },
                    )
                } else {
                    models_to(s)
                },
                KeyCode::Up => models_to(
                    ModelsStepV::ModelList {
                        provider,
                        models,
                        selected: cycle(selected, models.len() as int, -1),
                        fetching: false,
                    },
                ),
                KeyCode::Down => models_to(
                    ModelsStepV::ModelList {
                        provider,
                        models,
                        selected: cycle(selected, models.len() as int, 1),
                        fetching: false,
                    },
                ),
                _ => models_to(s),
            }
        },
        ModelsStepV::Manual { provider, input, error } => if key.code == KeyCode::Esc {
            TransitionV::Close
        } else if is_retry(key) {
            refetched(provider)
        } else {
            match key.code {
                KeyCode::Enter => if trim(input).len() > 0 {
                    TransitionV::Apply(
                        ModalApplyV::Model { provider, model: trim(input), verified: false },
                    )
                } else {
                    models_to(s)
                },
                KeyCode::Backspace => models_to(
                    ModelsStepV::Manual { provider, input: pop_last(input), error },
                ),
                KeyCode::Char(c) => models_to(
                    ModelsStepV::Manual { provider, input: input.push(c), error },
                ),
                _ => models_to(s),
            }
        },
    }
}

/// Any modal's transition.
pub open spec fn modal_next(m: ModalV, key: KeyEvent) -> TransitionV {
    match m {
        ModalV::Help => help_next(key),
        ModalV::Connect(s) => connect_next(s, key),
        ModalV::Models(s) => models_next(s, key),
    }
}

/// The provider whose model list a modal state is waiting on, and where the result goes: only a
/// list that is still fetching names one.
pub open spec fn fetch_target_of(m: ModalV) -> Option<(Seq<char>, FetchSink)> {
    match m {
        ModalV::Connect(ConnectStepV::ModelList { provider, fetching, .. }) => if fetching {
            Some((provider, FetchSink::Connect))
        } else {
            None
        },
        ModalV::Models(ModelsStepV::ModelList { provider, fetching, .. }) => if fetching {
            Some((provider, FetchSink::Models))
        } else {
            None
        },
        _ => None,
    }
}

/// The fetch target of an optional open modal.
pub open spec fn open_target(m: Option<ModalV>) -> Option<(Seq<char>, FetchSink)> {
    match m {
        Some(m) => fetch_target_of(m),
        None => None,
    }
}

/// A copy of a list of strings.
pub fn copy_strings(v: &Vec<String>) -> (r: Vec<String>)
    ensures
        strs_v(r@) == strs_v(v@),
{
    let mut r: Vec<String> = Vec::new();
    let mut i: usize = 0;
    while i < v.len()
        invariant
            i <= v.len(),
            r@.len() == i,
            forall|k: int| 0 <= k < i ==> (#[trigger] r@[k])@ == v@[k]@,
        decreases v.len() - i,
    {
        let s = v[i].clone();
        r.push(s);
        i = i + 1;
    }
    assert(strs_v(r@) =~= strs_v(v@));
    r
}

/// A copy of a list of provider rows.
pub fn copy_rows(v: &Vec<ProviderRow>) -> (r: Vec<ProviderRow>)
    ensures
        rows_v(r@) == rows_v(v@),
{
    let mut r: Vec<ProviderRow> = Vec::new();
    let mut i: usize = 0;
    while i < v.len()
        invariant
            i <= v.len(),
            r@.len() == i,
            forall|k: int| 0 <= k < i ==> (#[trigger] r@[k])@ == v@[k]@,
        decreases v.len() - i,
    {
        let row = ProviderRow { id: v[i].id.clone(), connected: v[i].connected };
        r.push(row);
        i = i + 1;
    }
    assert(rows_v(r@) =~= rows_v(v@));
    r
}

/// A copy of an optional string.
pub fn copy_opt(o: &Option<String>) -> (r: Option<String>)
    ensures
        opt_str_v(r) == opt_str_v(*o),
{
    match o {
        Some(s) => Some(s.clone()),
        None => None,
    }
}

/// `s` without its last character.
pub fn pop_char(s: &String) -> (r: String)
    ensures
        r@ == pop_last(s@),
{
    let v = chars_of(s.as_str());
    if v.len() > 0 {
        let w = slice_chars(&v, 0, v.len() - 1);
        assert(w@ =~= v@.drop_last());
        string_of(&w)
    } else {
        string_of(&v)
    }
}

/// `s` with `c` appended.
pub fn push_char(s: &String, c: char) -> (r: String)
    ensures
        r@ == s@.push(c),
{
    let mut v = chars_of(s.as_str());
    v.push(c);
    string_of(&v)
}

/// `s` with its surrounding whitespace removed.
pub fn trimmed(s: &String) -> (r: String)
    ensures
        r@ == trim(s@),
{
    string_of(&trim_chars(&chars_of(s.as_str())))
}

/// Move a list selection up (`-1`) or down (`+1`), wrapping at the ends.
pub fn cycle_index(current: usize, len: usize, delta: isize) -> (r: usize)
    ensures
        r == cycle(current as int, len as int, delta as int),
        len > 0 ==> r < len,
{
    if len == 0 {
        return 0;
    }
    let next: i128 = current as i128 + delta as i128;
    if next < 0 {
        len - 1
    } else if next >= len as i128 {
        0
    } else {
        next as usize
    }
}

/// The position of the row whose id is `id`, or 0.
fn position_of(rows: &Vec<ProviderRow>, id: &String) -> (r: usize)
    ensures
        r == row_position(rows_v(rows@), id@),
{
    let mut i: usize = 0;
    while i < rows.len()
        invariant
            i <= rows.len(),
            forall|k: int| 0 <= k < i ==> rows@[k].id@ != id@,
        decreases rows.len() - i,
    {
        if str_eq(rows[i].id.as_str(), id.as_str()) {
            proof {
                lemma_find_row_at(rows_v(rows@), id@, i as int);
            }
            return i;
        }
        i = i + 1;
    }
    proof {
        lemma_find_row_none(rows_v(rows@), id@);
    }
    0
}

proof fn lemma_find_row_at(rows: Seq<ProviderRowV>, id: Seq<char>, i: int)
    requires
        0 <= i < rows.len(),
        rows[i].id == id,
        forall|k: int| 0 <= k < i ==> rows[k].id != id,
    ensures
        find_row(rows, id) == Some(i),
    decreases i,
{
    if i > 0 {
        lemma_find_row_at(rows.drop_first(), id, i - 1);
    }
}

proof fn lemma_find_row_none(rows: Seq<ProviderRowV>, id: Seq<char>)
    requires
        forall|k: int| 0 <= k < rows.len() ==> rows[k].id != id,
    ensures
        find_row(rows, id) is None,
    decreases rows.len(),
{
    if rows.len() > 0 {
        lemma_find_row_none(rows.drop_first(), id);
    }
}

impl ConnectStep {
    /// A copy of this step.
    pub fn copy(&self) -> (r: ConnectStep)
        ensures
            r@ == self@,
    {
        match self {
            ConnectStep::ProviderList { rows, selected } => ConnectStep::ProviderList {
                rows: copy_rows(rows),
                selected: *selected,
            },
            ConnectStep::KeyEntry { rows, provider, input } => ConnectStep::KeyEntry {
                rows: copy_rows(rows),
                provider: provider.clone(),
                input: input.clone(),
            },
            ConnectStep::ModelList {
                rows,
                provider,
                models,
                selected,
                fetching,
                error,
                from_key,
            } => ConnectStep::ModelList {
                rows: copy_rows(rows),
                provider: provider.clone(),
                models: copy_strings(models),
                selected: *selected,
                fetching: *fetching,
                error: copy_opt(error),
                from_key: *from_key,
            },
        }
    }
}

impl ModelsStep {
    /// A copy of this step.
    pub fn copy(&self) -> (r: ModelsStep)
        ensures
            r@ == self@,
    {
        match self {
            ModelsStep::ModelList { provider, models, selected, fetching } =>
                ModelsStep::ModelList {
                provider: provider.clone(),
                models: copy_strings(models),
                selected: *selected,
                fetching: *fetching,
            },
            ModelsStep::Manual { provider, input, error } => ModelsStep::Manual {
                provider: provider.clone(),
                input: input.clone(),
                error: copy_opt(error),
            },
            ModelsStep::Credentials { provider, error } => ModelsStep::Credentials {
                provider: provider.clone(),
                error: error.clone(),
            },
            ModelsStep::Offline => ModelsStep::Offline,
        }
    }
}

impl Modal {
    /// A copy of this modal.
    pub fn copy(&self) -> (r: Modal)
        ensures
            r@ == self@,
    {
        match self {
            Modal::Help => Modal::Help,
            Modal::Connect(step) => Modal::Connect(step.copy()),
            Modal::Models(step) => Modal::Models(step.copy()),
        }
    }

    /// Maps a key press in the current state to the next state, a commit, or closing.
    pub fn next(&self, key: KeyEvent) -> (r: ModalTransition)
        ensures
            r@ == modal_next(self@, key),
    {
        match self {
            Modal::Help => help_step_next(key),
            Modal::Connect(step) => connect_step_next(step, key),
            Modal::Models(step) => models_step_next(step, key),
        }
    }

    /// The provider whose model list this state is waiting on, and where the result goes.
    pub fn fetch_target(&self) -> (r: Option<(&str, FetchSink)>)
        ensures
            match r {
                Some((provider, sink)) => fetch_target_of(self@) == Some((provider@, sink)),
                None => fetch_target_of(self@) is None,
            },
    {
        match self {
            Modal::Connect(ConnectStep::ModelList { provider, fetching, .. }) => if *fetching {
                Some((provider.as_str(), FetchSink::Connect))
            } else {
                None
            },
            Modal::Models(ModelsStep::ModelList { provider, fetching, .. }) => if *fetching {
                Some((provider.as_str(), FetchSink::Models))
            } else {
                None
            },
            _ => None,
        }
    }

    /// The i18n key of the status hint this modal takes over: only help does.
    pub fn hint_key(&self) -> (r: Option<&'static str>)
        ensures
            r is Some <==> self@ is Help,
            r matches Some(k) ==> k@ == "hint.help_close"@,
    {
        match self {
            Modal::Help => Some("hint.help_close"),
            _ => None,
        }
    }
}

/// The help modal's transition.
pub fn help_step_next(key: KeyEvent) -> (r: ModalTransition)
    ensures
        r@ == help_next(key),
{
    if key.code == KeyCode::Esc || ctrl_char(key, 'p') {
        ModalTransition::Close
    } else {
        ModalTransition::Step(Modal::Help)
    }
}

/// An empty connect model list for `provider`, waiting on its fetch.
fn awaiting_list(rows: &Vec<ProviderRow>, provider: &String, from_key: bool) -> (r: ConnectStep)
    ensures
        r@ == awaiting_connect_list(rows_v(rows@), provider@, from_key),
{
    let r = ConnectStep::ModelList {
        rows: copy_rows(rows),
        provider: provider.clone(),
        models: Vec::new(),
        selected: 0,
        fetching: true,
        error: None,
        from_key,
    };
    assert(strs_v(Seq::<String>::empty()) =~= Seq::<Seq<char>>::empty());
    r
}

/// The connect modal's transition: maps a key press in the current step to the next step, a
/// commit, or closing.
pub fn connect_step_next(step: &ConnectStep, key: KeyEvent) -> (r: ModalTransition)
    ensures
        r@ == connect_next(step@, key),
{
    let same = ModalTransition::Step(Modal::Connect(step.copy()));
    match step {
        ConnectStep::ProviderList { rows, selected } => match key.code {
            KeyCode::Esc => ModalTransition::Close,
            KeyCode::Up => ModalTransition::Step(
                Modal::Connect(
                    ConnectStep::ProviderList {
                        rows: copy_rows(rows),
                        selected: cycle_index(*selected, rows.len(), -1),
                    },
                ),
            ),
            KeyCode::Down => ModalTransition::Step(
                Modal::Connect(
                    ConnectStep::ProviderList {
                        rows: copy_rows(rows),
                        selected: cycle_index(*selected, rows.len(), 1),
                    },
                ),
            ),
            KeyCode::Enter => if *selected < rows.len() {
                let row = &rows[*selected];
                assert(rows_v(rows@)[*selected as int] == row@);
                if row.connected || str_eq(row.id.as_str(), "ollama") {
                    ModalTransition::Step(Modal::Connect(awaiting_list(rows, &row.id, false)))
                } else {
                    ModalTransition::Step(
                        Modal::Connect(
                            ConnectStep::KeyEntry {
                                rows: copy_rows(rows),
                                provider: row.id.clone(),
                                input: String::new(),
                            },
                        ),
                    )
                }
            } else {
                same
            },
            _ => same,
        },
        ConnectStep::KeyEntry { rows, provider, input } => match key.code {
            KeyCode::Esc => ModalTransition::Step(
                Modal::Connect(
                    ConnectStep::ProviderList {
                        rows: copy_rows(rows),
                        selected: position_of(rows, provider),
                    },
                ),
            ),
            KeyCode::Enter => if trim_chars(&chars_of(input.as_str())).len() > 0 {
                ModalTransition::Step(Modal::Connect(awaiting_list(rows, provider, true)))
            } else {
                same
            },
            KeyCode::Backspace => ModalTransition::Step(
                Modal::Connect(
                    ConnectStep::KeyEntry {
                        rows: copy_rows(rows),
                        provider: provider.clone(),
                        input: pop_char(input),
                    },
                ),
            ),
            KeyCode::Char(c) => ModalTransition::Step(
                Modal::Connect(
                    ConnectStep::KeyEntry {
                        rows: copy_rows(rows),
                        provider: provider.clone(),
                        input: push_char(input, c),
                    },
                ),
            ),
            _ => same,
        },
        ConnectStep::ModelList { rows, provider, models, selected, fetching, error, from_key } =>
            match key.code {
            KeyCode::Esc => if !*fetching && takes_key(provider.as_str()) && (*from_key
                || error.is_some()) {
                ModalTransition::Step(
                    Modal::Connect(
                        ConnectStep::KeyEntry {
                            rows: copy_rows(rows),
                            provider: provider.clone(),
                            input: String::new(),
                        },
                    ),
                )
            } else {
                ModalTransition::Step(
                    Modal::Connect(
                        ConnectStep::ProviderList {
                            rows: copy_rows(rows),
                            selected: position_of(rows, provider),
                        },
                    ),
                )
            },
            KeyCode::Enter => if !*fetching && *selected < models.len() {
                assert(strs_v(models@)[*selected as int] == models@[*selected as int]@);
                ModalTransition::Apply(
                    ModalApply::Provider {
                        provider: provider.clone(),
                        model: models[*selected].clone(),
                    },
                )
            } else {
                same
            },
            KeyCode::Up | KeyCode::Down => {
                let delta: isize = if key.code == KeyCode::Up {
                    -1
                } else {
                    1
                };
                ModalTransition::Step(
                    Modal::Connect(
                        ConnectStep::ModelList {
                            rows: copy_rows(rows),
                            provider: provider.clone(),
                            models: copy_strings(models),
                            selected: cycle_index(*selected, models.len(), delta),
                            fetching: *fetching,
                            error: copy_opt(error),
                            from_key: *from_key,
                        },
                    ),
                )
            },
            _ => same,
        },
    }
}

/// The retry: a plain step back to an empty, fetching `/models` list for `provider`.
pub fn refetch(provider: &str) -> (r: ModalTransition)
    ensures
        r@ == refetched(provider@),
{
    let r = ModalTransition::Step(
        Modal::Models(
            ModelsStep::ModelList {
                provider: string_of(&chars_of(provider)),
                models: Vec::new(),
                selected: 0,
                fetching: true,
            },
        ),
    );
    assert(strs_v(Seq::<String>::empty()) =~= Seq::<Seq<char>>::empty());
    r
}

/// The models modal's transition: maps a key press in the current step to the next step, a
/// commit, or closing.
pub fn models_step_next(step: &ModelsStep, key: KeyEvent) -> (r: ModalTransition)
    ensures
        r@ == models_next(step@, key),
{
    let same = ModalTransition::Step(Modal::Models(step.copy()));
    match step {
        ModelsStep::Offline => if key.code == KeyCode::Esc || key.code == KeyCode::Enter {
            ModalTransition::Close
        } else {
            same
        },
        ModelsStep::Credentials { provider, .. } => if retry_key(key) {
            refetch(provider.as_str())
        } else if key.code == KeyCode::Esc || key.code == KeyCode::Enter {
            ModalTransition::Close
        } else {
            same
        },
        ModelsStep::ModelList { provider, models, selected, fetching } => if *fetching {
            if key.code == KeyCode::Esc {
                ModalTransition::Close
            } else {
                same
            }
        } else if models.len() == 0 {
            if key.code == KeyCode::Esc {
                ModalTransition::Close
            } else if retry_key(key) {
                refetch(provider.as_str())
            } else {
                same
            }
        } else {
            match key.code {
                KeyCode::Esc => ModalTransition::Close,
                KeyCode::Enter => if *selected < models.len() {
                    assert(strs_v(models@)[*selected as int] == models@[*selected as int]@);
                    ModalTransition::Apply(
                        ModalApply::Model {
                            provider: provider.clone(),
                            model: models[*selected].clone(),
                            verified: true,
                        },
                    )
                } else {
                    same
                },
                KeyCode::Up | KeyCode::Down => {
                    let delta: isize = if key.code == KeyCode::Up {
                        -1
                    } else {
                        1
                    };
                    ModalTransition::Step(
                        Modal::Models(
                            ModelsStep::ModelList {
                                provider: provider.clone(),
                                models: copy_strings(models),
                                selected: cycle_index(*selected, models.len(), delta),
                                fetching: false,
                            },
                        ),
                    )
                },
                _ => same,
            }
        },
        ModelsStep::Manual { provider, input, error } => if key.code == KeyCode::Esc {
            ModalTransition::Close
        } else if retry_key(key) {
            refetch(provider.as_str())
        } else {
            match key.code {
                KeyCode::Enter => {
                    let id = trim_chars(&chars_of(input.as_str()));
                    if id.len() > 0 {
                        ModalTransition::Apply(
                            ModalApply::Model {
                                provider: provider.clone(),
                                model: string_of(&id),
                                verified: false,
                            },
                        )
                    } else {
                        same
                    }
                },
                KeyCode::Backspace => ModalTransition::Step(
                    Modal::Models(
                        ModelsStep::Manual {
                            provider: provider.clone(),
                            input: pop_char(input),
                            error: copy_opt(error),
                        },
                    ),
                ),
                KeyCode::Char(c) => ModalTransition::Step(
                    Modal::Models(
                        ModelsStep::Manual {
                            provider: provider.clone(),
                            input: push_char(input, c),
                            error: copy_opt(error),
                        },
                    ),
                ),
                _ => same,
            }
        },
    }
}

/// Owns the open modal together with the counter that invalidates its in-flight model-list
/// fetch, and the handle `T` of that fetch's task.
///
/// The counter is monotonic: one counter serves every modal ever opened, which is sound only
/// because no value is reused. Every mutator that abandons an awaited list — opening, closing,
/// a step that changes what is awaited, claiming a nonce for a new fetch — bumps it and hands
/// the tracked task back to the caller, which cancels it.
pub struct ModalHost<T> {
    open: Option<Modal>,
    nonce: u64,
    fetch: Option<T>,
}

impl<T> ModalHost<T> {
    /// The open modal.
    pub closed spec fn current_v(&self) -> Option<ModalV> {
        match self.open {
            Some(m) => Some(m@),
            None => None,
        }
    }

    /// The fetch-generation counter.
    pub closed spec fn nonce_v(&self) -> u64 {
        self.nonce
    }

    /// The tracked fetch task.
    pub closed spec fn fetch_v(&self) -> Option<T> {
        self.fetch
    }

    /// No modal open, counter at 0, no fetch tracked.
    pub fn new() -> (r: Self)
        ensures
            r.current_v() is None,
            r.nonce_v() == 0,
            r.fetch_v() is None,
    {
        ModalHost { open: None, nonce: 0, fetch: None }
    }

    /// Abandon the awaited fetch: release its task and bump the counter.
    fn invalidate_fetch(&mut self) -> (abandoned: Option<T>)
        requires
            old(self).nonce < u64::MAX,
        ensures
            final(self).nonce == old(self).nonce + 1,
            final(self).fetch is None,
            abandoned == old(self).fetch,
            final(self).open == old(self).open,
    {
        let abandoned = self.fetch.take();
        self.nonce = self.nonce + 1;
        abandoned
    }

    /// Track the task just spawned for the nonce [`Self::next_fetch_nonce`] handed out.
    pub fn track_fetch(&mut self, task: T)
        ensures
            final(self).fetch_v() == Some(task),
            final(self).nonce_v() == old(self).nonce_v(),
            final(self).current_v() == old(self).current_v(),
    {
        self.fetch = Some(task);
    }

    /// Whether a fetch task is still tracked as cancellable.
    pub fn tracks_fetch(&self) -> (r: bool)
        ensures
            r == self.fetch_v() is Some,
    {
        self.fetch.is_some()
    }

    /// Stop tracking a fetch that has delivered its own result.
    pub fn forget_fetch(&mut self)
        ensures
            final(self).fetch_v() is None,
            final(self).nonce_v() == old(self).nonce_v(),
            final(self).current_v() == old(self).current_v(),
    {
        self.fetch = None;
    }

    /// Open `modal`, replacing whatever was open and invalidating its fetch; the released task
    /// is returned for the caller to cancel.
    pub fn open(&mut self, modal: Modal) -> (abandoned: Option<T>)
        requires
            old(self).nonce_v() < u64::MAX,
        ensures
            final(self).current_v() == Some(modal@),
            final(self).nonce_v() == old(self).nonce_v() + 1,
            final(self).fetch_v() is None,
            abandoned == old(self).fetch_v(),
    {
        let abandoned = self.invalidate_fetch();
        self.open = Some(modal);
        abandoned
    }

    /// Close whatever is open and invalidate its fetch, even when nothing is open: a fetch can
    /// outlive the modal that started it.
    pub fn close(&mut self) -> (abandoned: Option<T>)
        requires
            old(self).nonce_v() < u64::MAX,
        ensures
            final(self).current_v() is None,
            final(self).nonce_v() == old(self).nonce_v() + 1,
            final(self).fetch_v() is None,
            abandoned == old(self).fetch_v(),
    {
        self.open = None;
        self.invalidate_fetch()
    }

    /// Swap the open modal's state, invalidating the awaited fetch only when the new state no
    /// longer awaits the same thing.
    pub fn replace_step(&mut self, modal: Modal) -> (abandoned: Option<T>)
        requires
            old(self).nonce_v() < u64::MAX,
        ensures
            final(self).current_v() == Some(modal@),
            open_target(old(self).current_v()) != fetch_target_of(modal@) ==> {
                &&& final(self).nonce_v() == old(self).nonce_v() + 1
                &&& final(self).fetch_v() is None
                &&& abandoned == old(self).fetch_v()
            },
            open_target(old(self).current_v()) == fetch_target_of(modal@) ==> {
                &&& final(self).nonce_v() == old(self).nonce_v()
                &&& final(self).fetch_v() == old(self).fetch_v()
                &&& abandoned is None
            },
    {
        let changed = match &self.open {
            Some(current) => !same_target(current.fetch_target(), modal.fetch_target()),
            None => modal.fetch_target().is_some(),
        };
        let abandoned = if changed {
            self.invalidate_fetch()
        } else {
            None
        };
        self.open = Some(modal);
        abandoned
    }

    /// Replace the open modal's state in place, without touching the counter or the fetch: the
    /// fill of a list with the result it was awaiting.
    pub fn fill(&mut self, modal: Modal)
        ensures
            final(self).current_v() == Some(modal@),
            final(self).nonce_v() == old(self).nonce_v(),
            final(self).fetch_v() == old(self).fetch_v(),
    {
        self.open = Some(modal);
    }

    /// The open modal.
    pub fn current(&self) -> (r: Option<&Modal>)
        ensures
            match r {
                Some(m) => self.current_v() == Some(m@),
                None => self.current_v() is None,
            },
    {
        self.open.as_ref()
    }

    /// Whether a modal is open.
    pub fn is_open(&self) -> (r: bool)
        ensures
            r == self.current_v() is Some,
    {
        self.open.is_some()
    }

    /// The current fetch generation.
    pub fn nonce(&self) -> (r: u64)
        ensures
            r == self.nonce_v(),
    {
        self.nonce
    }

    /// Claim a nonce for a newly spawned fetch, invalidating any earlier one. Returns the nonce
    /// the fetch's result must carry, and the released earlier task.
    pub fn next_fetch_nonce(&mut self) -> (r: (u64, Option<T>))
        requires
            old(self).nonce_v() < u64::MAX,
        ensures
            r.0 == final(self).nonce_v(),
            final(self).nonce_v() == old(self).nonce_v() + 1,
            final(self).fetch_v() is None,
            r.1 == old(self).fetch_v(),
            final(self).current_v() == old(self).current_v(),
    {
        let abandoned = self.invalidate_fetch();
        (self.nonce, abandoned)
    }
}

/// Whether two fetch targets are the same.
pub fn same_target(a: Option<(&str, FetchSink)>, b: Option<(&str, FetchSink)>) -> (r: bool)
    ensures
        r == (target_v(a) == target_v(b)),
{
    match (a, b) {
        (Some((p, s)), Some((q, t))) => s == t && str_eq(p, q),
        (None, None) => true,
        _ => false,
    }
}

/// The view of a fetch target.
pub open spec fn target_v(t: Option<(&str, FetchSink)>) -> Option<(Seq<char>, FetchSink)> {
    match t {
        Some((p, s)) => Some((p@, s)),
        None => None,
    }
}

/// `s` in double quotes.
pub open spec fn quoted(s: Seq<char>) -> Seq<char> {
    seq!['"'] + s + seq!['"']
}

/// `true` or `false`.
pub open spec fn bool_text(b: bool) -> Seq<char> {
    if b {
        "true"@
    } else {
        "false"@
    }
}

/// `items` separated by `, `.
pub open spec fn comma_list(items: Seq<Seq<char>>) -> Seq<char>
    decreases items.len(),
{
    if items.len() == 0 {
        Seq::empty()
    } else if items.len() == 1 {
        items[0]
    } else {
        comma_list(items.drop_last()) + ", "@ + items.last()
    }
}

/// `[a, b, ...]`.
pub open spec fn bracketed_list(items: Seq<Seq<char>>) -> Seq<char> {
    seq!['['] + comma_list(items) + seq![']']
}

/// A provider row as debugging text.
pub open spec fn row_text(r: ProviderRowV) -> Seq<char> {
    "ProviderRow { id: "@ + quoted(r.id) + ", connected: "@ + bool_text(r.connected) + " }"@
}

/// An optional string as debugging text.
pub open spec fn opt_text(o: Option<Seq<char>>) -> Seq<char> {
    match o {
        Some(x) => "Some("@ + quoted(x) + ")"@,
        None => "None"@,
    }
}

/// A connect step as debugging text. The typed key of the key-entry step is never part of
/// it: that field always reads `"<redacted>"`.
pub open spec fn step_text(s: ConnectStepV) -> Seq<char> {
    match s {
        ConnectStepV::ProviderList { rows, selected } => "ProviderList { rows: "@ + bracketed_list(
            rows.map_values(|r: ProviderRowV| row_text(r)),
        ) + ", selected: "@ + crate::text::decimal(selected as nat) + " }"@,
        ConnectStepV::KeyEntry { rows, provider, .. } => "KeyEntry { rows: "@ + bracketed_list(
            rows.map_values(|r: ProviderRowV| row_text(r)),
        ) + ", provider: "@ + quoted(provider) + ", input: \"<redacted>\" }"@,
        ConnectStepV::ModelList { rows, provider, models, selected, fetching, error, from_key } =>
            "ModelList { rows: "@ + bracketed_list(rows.map_values(|r: ProviderRowV| row_text(r)))
            + ", provider: "@ + quoted(provider) + ", models: "@ + bracketed_list(
            models.map_values(|m: Seq<char>| quoted(m)),
        ) + ", selected: "@ + crate::text::decimal(selected as nat) + ", fetching: "@
            + bool_text(fetching) + ", error: "@ + opt_text(error) + ", from_key: "@ + bool_text(
            from_key,
        ) + " }"@,
    }
}

/// Append `s`.
fn push_text(v: &mut Vec<char>, s: &str)
    ensures
        final(v)@ == old(v)@ + s@,
{
    crate::text::extend_chars(v, &chars_of(s));
}

/// Append `s` in double quotes.
fn push_quoted(v: &mut Vec<char>, s: &str)
    ensures
        final(v)@ == old(v)@ + quoted(s@),
{
    v.push('"');
    push_text(v, s);
    v.push('"');
    assert(v@ =~= old(v)@ + quoted(s@));
}

/// Append `true` or `false`.
fn push_bool(v: &mut Vec<char>, b: bool)
    ensures
        final(v)@ == old(v)@ + bool_text(b),
{
    proof {
        reveal_strlit("true");
        reveal_strlit("false");
    }
    if b {
        push_text(v, "true");
    } else {
        push_text(v, "false");
    }
}

/// Append the rows as a bracketed list.
fn push_rows(v: &mut Vec<char>, rows: &Vec<ProviderRow>)
    ensures
        final(v)@ == old(v)@ + bracketed_list(rows_v(rows@).map_values(|r: ProviderRowV| row_text(r))),
{
    let ghost items = rows_v(rows@).map_values(|r: ProviderRowV| row_text(r));
    v.push('[');
    let ghost start = v@;
    let mut i: usize = 0;
    assert(items.take(0) =~= Seq::<Seq<char>>::empty());
    assert(start + comma_list(items.take(0)) =~= start);
    while i < rows.len()
        invariant
            i <= rows@.len(),
            items == rows_v(rows@).map_values(|r: ProviderRowV| row_text(r)),
            items.len() == rows@.len(),
            v@ == start + comma_list(items.take(i as int)),
        decreases rows@.len() - i,
    {
        proof {
            reveal_strlit(", ");
            reveal_strlit("ProviderRow { id: ");
            reveal_strlit(", connected: ");
            reveal_strlit(" }");
        }
        let ghost before = v@;
        if i > 0 {
            push_text(v, ", ");
        }
        push_text(v, "ProviderRow { id: ");
        push_quoted(v, rows[i].id.as_str());
        push_text(v, ", connected: ");
        push_bool(v, rows[i].connected);
        push_text(v, " }");
        proof {
            assert(items[i as int] == row_text(rows@[i as int]@));
            assert(items.take(i + 1).drop_last() =~= items.take(i as int));
            if i == 0 {
                assert(v@ =~= start + items.take(1)[0]);
            } else {
                assert(v@ =~= start + comma_list(items.take(i as int)) + ", "@ + items.take(i + 1).last());
            }
        }
        i = i + 1;
    }
    assert(items.take(rows@.len() as int) =~= items);
    v.push(']');
    assert(v@ =~= old(v)@ + bracketed_list(items));
}

/// Append the strings, each quoted, as a bracketed list.
fn push_quoted_list(v: &mut Vec<char>, items_exec: &Vec<String>)
    ensures
        final(v)@ == old(v)@ + bracketed_list(strs_v(items_exec@).map_values(|m: Seq<char>| quoted(m))),
{
    let ghost items = strs_v(items_exec@).map_values(|m: Seq<char>| quoted(m));
    v.push('[');
    let ghost start = v@;
    let mut i: usize = 0;
    assert(items.take(0) =~= Seq::<Seq<char>>::empty());
    assert(start + comma_list(items.take(0)) =~= start);
    while i < items_exec.len()
        invariant
            i <= items_exec@.len(),
            items == strs_v(items_exec@).map_values(|m: Seq<char>| quoted(m)),
            items.len() == items_exec@.len(),
            v@ == start + comma_list(items.take(i as int)),
        decreases items_exec@.len() - i,
    {
        proof {
            reveal_strlit(", ");
        }
        if i > 0 {
            push_text(v, ", ");
        }
        push_quoted(v, items_exec[i].as_str());
        proof {
            assert(items[i as int] == quoted(items_exec@[i as int]@));
            assert(items.take(i + 1).drop_last() =~= items.take(i as int));
            if i == 0 {
                assert(v@ =~= start + items.take(1)[0]);
            } else {
                assert(v@ =~= start + comma_list(items.take(i as int)) + ", "@ + items.take(i + 1).last());
            }
        }
        i = i + 1;
    }
    assert(items.take(items_exec@.len() as int) =~= items);
    v.push(']');
    assert(v@ =~= old(v)@ + bracketed_list(items));
}

impl ConnectStep {
    /// The step as debugging text, with the typed key of the key-entry step replaced by
    /// `<redacted>`: the key is a secret and never appears in any rendering of the step.
    pub fn redacted_debug(&self) -> (r: String)
        ensures
            r@ == step_text(self@),
    {
        proof {
            reveal_strlit("ProviderList { rows: ");
            reveal_strlit(", selected: ");
            reveal_strlit(" }");
            reveal_strlit("KeyEntry { rows: ");
            reveal_strlit(", provider: ");
            reveal_strlit(", input: \"<redacted>\" }");
            reveal_strlit("ModelList { rows: ");
            reveal_strlit(", models: ");
            reveal_strlit(", fetching: ");
            reveal_strlit(", error: ");
            reveal_strlit(", from_key: ");
            reveal_strlit("Some(");
            reveal_strlit(")");
            reveal_strlit("None");
        }
        let mut v: Vec<char> = Vec::new();
        match self {
            ConnectStep::ProviderList { rows, selected } => {
                push_text(&mut v, "ProviderList { rows: ");
                push_rows(&mut v, rows);
                push_text(&mut v, ", selected: ");
                crate::text::push_decimal(&mut v, *selected as u64);
                push_text(&mut v, " }");
            },
            ConnectStep::KeyEntry { rows, provider, .. } => {
                push_text(&mut v, "KeyEntry { rows: ");
                push_rows(&mut v, rows);
                push_text(&mut v, ", provider: ");
                push_quoted(&mut v, provider.as_str());
                push_text(&mut v, ", input: \"<redacted>\" }");
            },
            ConnectStep::ModelList { rows, provider, models, selected, fetching, error, from_key } => {
                push_text(&mut v, "ModelList { rows: ");
                push_rows(&mut v, rows);
                push_text(&mut v, ", provider: ");
                push_quoted(&mut v, provider.as_str());
                push_text(&mut v, ", models: ");
                push_quoted_list(&mut v, models);
                push_text(&mut v, ", selected: ");
                crate::text::push_decimal(&mut v, *selected as u64);
                push_text(&mut v, ", fetching: ");
                push_bool(&mut v, *fetching);
                push_text(&mut v, ", error: ");
                match error {
                    Some(e) => {
                        push_text(&mut v, "Some(");
                        push_quoted(&mut v, e.as_str());
                        push_text(&mut v, ")");
                    },
                    None => {
                        push_text(&mut v, "None");
                    },
                }
                push_text(&mut v, ", from_key: ");
                push_bool(&mut v, *from_key);
                push_text(&mut v, " }");
            },
        }
        assert(v@ =~= step_text(self@));
        string_of(&v)
    }
}

} // verus!
