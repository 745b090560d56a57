//! Global shortcuts: which actions they trigger, and how an action gets its
//! shortcut registered.
use vstd::prelude::*;
use vstd::string::StringExecFns;
use crate::registry::{action_for, ShortcutRegistry};
use crate::shortcut::{hotkey_accepts, normalize_shortcut, normalized_shortcut, parse_hotkey, ParsedHotkey};
use crate::text::same_text;
use crate::normal_form::law_normal_form_idempotent;
use vstd::utf8::is_ascii_chars;

verus! {

/// Each registered shortcut, in normal form, to the name of its action.
pub type Bindings = Map<Seq<char>, Seq<char>>;

/// The actions that a global shortcut can trigger.
#[derive(Clone, Copy, Debug, PartialEq, Eq, Structural)]
pub enum HotkeyAction {
    SelectionTranslate,
    InputTranslate,
    OcrRecognize,
    OcrTranslate,
}

/// The action of a name, if it names one.
pub open spec fn action_named(name: Seq<char>) -> Option<HotkeyAction> {
    if name == "hotkey_selection_translate"@ {
        Some(HotkeyAction::SelectionTranslate)
    } else if name == "hotkey_input_translate"@ {
        Some(HotkeyAction::InputTranslate)
    } else if name == "hotkey_ocr_recognize"@ {
        Some(HotkeyAction::OcrRecognize)
    } else if name == "hotkey_ocr_translate"@ {
        Some(HotkeyAction::OcrTranslate)
    } else {
        None
    }
}

impl HotkeyAction {
    /// The name of the action, which is also the configuration entry of its
    /// shortcut.
    pub open spec fn name_of(self) -> Seq<char> {
        match self {
            HotkeyAction::SelectionTranslate => "hotkey_selection_translate"@,
            HotkeyAction::InputTranslate => "hotkey_input_translate"@,
            HotkeyAction::OcrRecognize => "hotkey_ocr_recognize"@,
            HotkeyAction::OcrTranslate => "hotkey_ocr_translate"@,
        }
    }

    /// The name of the action.
    pub fn name(&self) -> (r: &'static str)
        ensures
            r@ == self.name_of(),
    {
        match self {
            HotkeyAction::SelectionTranslate => "hotkey_selection_translate",
            HotkeyAction::InputTranslate => "hotkey_input_translate",
            HotkeyAction::OcrRecognize => "hotkey_ocr_recognize",
            HotkeyAction::OcrTranslate => "hotkey_ocr_translate",
        }
    }

    /// The action that `name` names, if any.
    pub fn from_name(name: &str) -> (r: Option<HotkeyAction>)
        ensures
            r == action_named(name@),
    {
        if same_text(name, "hotkey_selection_translate") {
            Some(HotkeyAction::SelectionTranslate)
        } else if same_text(name, "hotkey_input_translate") {
            Some(HotkeyAction::InputTranslate)
        } else if same_text(name, "hotkey_ocr_recognize") {
            Some(HotkeyAction::OcrRecognize)
        } else if same_text(name, "hotkey_ocr_translate") {
            Some(HotkeyAction::OcrTranslate)
        } else {
            None
        }
    }
}

/// The actions whose shortcuts a request for `shortcut` registers, in this
/// order: all four for `all`, the named one for an action's name, none for
/// anything else.
pub open spec fn requested_actions(shortcut: Seq<char>) -> Seq<HotkeyAction> {
    if shortcut == "all"@ {
        seq![
            HotkeyAction::SelectionTranslate,
            HotkeyAction::InputTranslate,
            HotkeyAction::OcrRecognize,
            HotkeyAction::OcrTranslate,
        ]
    } else {
        match action_named(shortcut) {
            Some(a) => seq![a],
            None => Seq::<HotkeyAction>::empty(),
        }
    }
}

/// The actions to register, in order, for a request for `shortcut`.
fn requested_action_list(shortcut: &str) -> (r: Vec<HotkeyAction>)
    ensures
        r@ == requested_actions(shortcut@),
{
    let mut r: Vec<HotkeyAction> = Vec::new();
    if same_text(shortcut, "all") {
        r.push(HotkeyAction::SelectionTranslate);
        r.push(HotkeyAction::InputTranslate);
        r.push(HotkeyAction::OcrRecognize);
        r.push(HotkeyAction::OcrTranslate);
        assert(r@ =~= requested_actions(shortcut@));
    } else {
        match HotkeyAction::from_name(shortcut) {
            Some(a) => {
                r.push(a);
                assert(r@ =~= requested_actions(shortcut@));
            },
            None => {
                assert(r@ =~= requested_actions(shortcut@));
            },
        }
    }
    r
}

/// What a request to register shortcuts does next.
#[derive(Debug, PartialEq, Eq)]
pub enum RequestStep {
    /// Register the configured shortcut of this action, and report how it
    /// went.
    Register(HotkeyAction),
    /// The request is over, with this result.
    Finish(Result<(), String>),
}

/// The next step of a request that registers `actions` in order, given the
/// results of the registrations made so far: the next action while all
/// succeeded, the first failure's error as soon as one failed, and success
/// once every action is registered.
pub open spec fn request_step(actions: Seq<HotkeyAction>, outcomes: Seq<Result<(), String>>) -> RequestStep
    decreases outcomes.len(),
{
    if actions.len() == 0 {
        RequestStep::Finish(Ok(()))
    } else if outcomes.len() == 0 {
        RequestStep::Register(actions[0])
    } else if outcomes[0] is Err {
        RequestStep::Finish(outcomes[0])
    } else {
        request_step(actions.drop_first(), outcomes.drop_first())
    }
}

/// The next step of a request to register the shortcut of `shortcut` (an
/// action's name, or `all` for the four actions in order), given the results
/// of the registrations made so far. Each action is registered with its
/// configured shortcut; the request stops at the first failure and fails
/// with its error.
pub fn register_shortcut(shortcut: &str, outcomes: &Vec<Result<(), String>>) -> (r: RequestStep)
    ensures
        r == request_step(requested_actions(shortcut@), outcomes@),
{
    let actions = requested_action_list(shortcut);
    let ghost all = actions@;
    let mut i: usize = 0;
    assert(all.skip(0) =~= all);
    assert(outcomes@.skip(0) =~= outcomes@);
    while i < outcomes.len() && i < actions.len()
        invariant
            actions@ == all,
            all == requested_actions(shortcut@),
            i <= outcomes@.len(),
            i <= all.len(),
            request_step(all, outcomes@) == request_step(all.skip(i as int), outcomes@.skip(i as int)),
        decreases all.len() - i,
    {
        assert(all.skip(i as int).drop_first() =~= all.skip(i + 1));
        assert(outcomes@.skip(i as int).drop_first() =~= outcomes@.skip(i + 1));
        match &outcomes[i] {
            Err(e) => {
                return RequestStep::Finish(Err(e.clone()));
            },
            Ok(()) => {},
        }
        i = i + 1;
    }
    if i < actions.len() {
        RequestStep::Register(actions[i])
    } else {
        RequestStep::Finish(Ok(()))
    }
}

/// A request registers its actions in order while they succeed, and stops
/// at the first failure with that failure's error.
pub proof fn law_request_stops_at_first_failure(
    actions: Seq<HotkeyAction>,
    outcomes: Seq<Result<(), String>>,
)
    ensures
        (forall|j: int| 0 <= j < outcomes.len() ==> #[trigger] outcomes[j] is Ok) ==> request_step(
            actions,
            outcomes,
        ) == if outcomes.len() < actions.len() {
            RequestStep::Register(actions[outcomes.len() as int])
        } else {
            RequestStep::Finish(Ok(()))
        },
        forall|k: int|
            0 <= k < outcomes.len() && k < actions.len() && #[trigger] outcomes[k] is Err && (forall|
                j: int,
            | 0 <= j < k ==> #[trigger] outcomes[j] is Ok) ==> request_step(actions, outcomes)
                == RequestStep::Finish(outcomes[k]),
    decreases outcomes.len(),
{
    if actions.len() > 0 && outcomes.len() > 0 {
        law_request_stops_at_first_failure(actions.drop_first(), outcomes.drop_first());
        assert forall|k: int|
            0 <= k < outcomes.len() && k < actions.len() && #[trigger] outcomes[k] is Err && (forall|
                j: int,
            | 0 <= j < k ==> #[trigger] outcomes[j] is Ok) implies request_step(actions, outcomes)
                == RequestStep::Finish(outcomes[k]) by {
            if k > 0 {
                assert(outcomes[0] is Ok);
                let o = outcomes.drop_first();
                assert(o[k - 1] == outcomes[k]);
                assert forall|j: int| 0 <= j < k - 1 implies #[trigger] o[j] is Ok by {
                    assert(o[j] == outcomes[j + 1]);
                }
            }
        }
        if forall|j: int| 0 <= j < outcomes.len() ==> #[trigger] outcomes[j] is Ok {
            let o = outcomes.drop_first();
            assert(outcomes[0] is Ok);
            assert forall|j: int| 0 <= j < o.len() implies #[trigger] o[j] is Ok by {
                assert(o[j] == outcomes[j + 1]);
            }
        }
    }
}

/// The action whose shortcut the user set to a new one: `name`, if it names
/// an action; the request is ignored otherwise.
pub fn register_shortcut_by_frontend(name: &str) -> (r: Option<HotkeyAction>)
    ensures
        r == action_named(name@),
{
    HotkeyAction::from_name(name)
}

/// The action that a pressed shortcut triggers: the registered action of
/// its text, if it is registered and names an action.
pub fn handle_shortcut(registry: &ShortcutRegistry, hotkey: &str) -> (r: Option<HotkeyAction>)
    ensures
        r == match action_for(registry@, hotkey@) {
            Some(action) => action_named(action),
            None => None,
        },
{
    match registry.get_action(hotkey) {
        Some(action) => HotkeyAction::from_name(action.as_str()),
        None => None,
    }
}

/// The shortcut that a registration uses: the one given, or else the one
/// configured, or else none (empty).
pub open spec fn chosen_hotkey(key: Seq<char>, stored: Option<String>) -> Seq<char> {
    if key.len() > 0 {
        key
    } else {
        match stored {
            Some(s) => s@,
            None => Seq::<char>::empty(),
        }
    }
}

/// The message of a registration whose shortcut does not parse.
pub open spec fn invalid_format_message(hotkey: Seq<char>) -> Seq<char> {
    "Invalid shortcut format: "@ + hotkey
}

/// How the bindings change when `name` is about to be bound to the shortcut
/// `bound` (in normal form): a shortcut that `name` had before is dropped
/// (by its normal form) and handed back as `release`, unless it already is
/// `bound`.
pub open spec fn releases(
    before: Bindings,
    name: Seq<char>,
    bound: Seq<char>,
    release: Option<Seq<char>>,
    after: Bindings,
) -> bool {
    match release {
        Some(old) => {
            &&& before.contains_key(old)
            &&& before[old] == name
            &&& old != bound
            &&& after == before.remove(normalized_shortcut(old))
        },
        None => {
            &&& after == before
            &&& (forall|k: Seq<char>| #[trigger] before.contains_key(k) ==> before[k] != name)
                || (before.contains_key(bound) && before[bound] == name)
        },
    }
}

/// What a registration comes to before the system is asked.
pub enum Registration {
    /// There is no shortcut to register, and the registration succeeds. With
    /// `store_default`, no shortcut was configured, and an empty one is to be
    /// stored for the action.
    Skip { store_default: bool },
    /// The shortcut does not parse; the registration fails with `message`.
    Invalid { message: String },
    /// The system is to register `shortcut`, parsed from `hotkey`, after it
    /// unregisters `release`, the action's former shortcut, whose binding the
    /// registry has dropped.
    Bind { hotkey: String, shortcut: ParsedHotkey, release: Option<String> },
}

/// The first half of registering the shortcut of the action `name`: the
/// shortcut `key`, or when that is empty the configured one, `stored`. When
/// it parses, the action's former binding, if it is another shortcut, leaves
/// the registry.
pub fn prepare_registration(
    registry: &mut ShortcutRegistry,
    name: &str,
    key: &str,
    stored: Option<String>,
) -> (r: Registration)
    ensures
        ({
            let h = chosen_hotkey(key@, stored);
            match r {
                Registration::Skip { store_default } => {
                    &&& h.len() == 0
                    &&& store_default == (key@.len() == 0 && stored is None)
                    &&& final(registry)@ == old(registry)@
                },
                Registration::Invalid { message } => {
                    &&& h.len() > 0
                    &&& !hotkey_accepts(h)
                    &&& message@ == invalid_format_message(h)
                    &&& final(registry)@ == old(registry)@
                },
                Registration::Bind { hotkey, shortcut, release } => {
                    &&& h.len() > 0
                    &&& hotkey_accepts(h)
                    &&& hotkey@ == h
                    &&& shortcut.source() == h
                    &&& releases(
                        old(registry)@,
                        name@,
                        normalized_shortcut(h),
                        match release {
                            Some(s) => Some(s@),
                            None => None,
                        },
                        final(registry)@,
                    )
                },
            }
        }),
{
    let ghost h = chosen_hotkey(key@, stored);
    let store_default = key.is_empty() && stored.is_none();
    let hotkey: String = if !key.is_empty() {
        key.to_owned()
    } else {
        match stored {
            Some(s) => s,
            None => String::new(),
        }
    };
    assert(hotkey@ == h);
    if hotkey.as_str().is_empty() {
        return Registration::Skip { store_default };
    }
    match parse_hotkey(hotkey.as_str()) {
        Err(_) => {
            let mut message = "Invalid shortcut format: ".to_owned();
            message.append(hotkey.as_str());
            Registration::Invalid { message }
        },
        Ok(shortcut) => {
            let normalized = normalize_shortcut(hotkey.as_str());
            let release = match registry.hotkey_of(name) {
                Some(old) => {
                    if same_text(old.as_str(), normalized.as_str()) {
                        None
                    } else {
                        registry.remove(old.as_str());
                        Some(old)
                    }
                },
                None => None,
            };
            Registration::Bind { hotkey, shortcut, release }
        },
    }
}

/// The second half of registering: when the system registered the shortcut,
/// the registry binds it to the action `name`; otherwise the registration
/// fails with the system's message and the registry stays as it is.
pub fn finish_registration(
    registry: &mut ShortcutRegistry,
    name: &str,
    hotkey: String,
    outcome: Result<(), String>,
) -> (r: Result<(), String>)
    ensures
        match outcome {
            Ok(()) => r is Ok && final(registry)@ == old(registry)@.insert(
                normalized_shortcut(hotkey@),
                name@,
            ),
            Err(e) => r == Err::<(), String>(e) && final(registry)@ == old(registry)@,
        },
{
    match outcome {
        Ok(()) => {
            registry.insert(hotkey, name.to_owned());
            Ok(())
        },
        Err(e) => Err(e),
    }
}


/// Every stored shortcut is its own normal form.
pub open spec fn keys_in_normal_form(m: Bindings) -> bool {
    forall|k: Seq<char>| #[trigger] m.contains_key(k) ==> normalized_shortcut(k) == k
}

/// No action is bound to two shortcuts.
pub open spec fn one_shortcut_per_action(m: Bindings) -> bool {
    forall|k1: Seq<char>, k2: Seq<char>|
        #[trigger] m.contains_key(k1) && #[trigger] m.contains_key(k2) && m[k1] == m[k2] ==> k1
            == k2
}

/// A registration that the system accepted moves the action to its new
/// shortcut: afterwards the action is bound to that shortcut and to no
/// other, every other action keeps its binding unless the new shortcut took
/// it over, and no action is bound to two shortcuts. This holds where the
/// stored shortcuts are in normal form and no action had two shortcuts
/// before.
pub proof fn law_registration_rebinds(
    before: Bindings,
    name: Seq<char>,
    bound: Seq<char>,
    release: Option<Seq<char>>,
    middle: Bindings,
    after: Bindings,
)
    requires
        keys_in_normal_form(before),
        one_shortcut_per_action(before),
        releases(before, name, bound, release, middle),
        after == middle.insert(bound, name),
    ensures
        after.contains_key(bound) && after[bound] == name,
        forall|k: Seq<char>| #[trigger] after.contains_key(k) && after[k] == name ==> k == bound,
        one_shortcut_per_action(after),
        forall|k: Seq<char>|
            #[trigger] before.contains_key(k) && before[k] != name && k != bound ==> after.contains_key(
                k,
            ) && after[k] == before[k],
{
    match release {
        Some(old) => {
            assert(normalized_shortcut(old) == old);
        },
        None => {},
    }
    assert forall|k: Seq<char>| #[trigger] after.contains_key(k) && after[k] == name implies k == bound by {
        if k != bound {
            assert(before.contains_key(k) && before[k] == name);
        }
    }
}

/// Shortcuts written in ASCII are stored in normal form: bindings whose
/// shortcuts are the normal forms of ASCII texts have each shortcut as its
/// own normal form.
pub proof fn law_ascii_keys_in_normal_form(m: Bindings)
    requires
        forall|k: Seq<char>|
            #[trigger] m.contains_key(k) ==> exists|h: Seq<char>|
                is_ascii_chars(h) && k == #[trigger] normalized_shortcut(h),
    ensures
        keys_in_normal_form(m),
{
    assert forall|k: Seq<char>| #[trigger] m.contains_key(k) implies normalized_shortcut(k) == k by {
        let h = choose|h: Seq<char>| is_ascii_chars(h) && k == #[trigger] normalized_shortcut(h);
        law_normal_form_idempotent(h);
    }
}

/// An action's name names it, and a request for that name registers that
/// action alone.
pub proof fn law_action_names_round_trip(a: HotkeyAction)
    ensures
        action_named(a.name_of()) == Some(a),
        requested_actions(a.name_of()) == seq![a],
{
    reveal_strlit("hotkey_selection_translate");
    assert("hotkey_selection_translate"@.len() == 26);
    reveal_strlit("hotkey_input_translate");
    assert("hotkey_input_translate"@.len() == 22);
    reveal_strlit("hotkey_ocr_recognize");
    assert("hotkey_ocr_recognize"@.len() == 20);
    reveal_strlit("hotkey_ocr_translate");
    assert("hotkey_ocr_translate"@.len() == 20);
    reveal_strlit("all");
    assert("all"@.len() == 3);
    assert("hotkey_selection_translate"@ != "hotkey_input_translate"@);
    assert("hotkey_ocr_recognize"@[11] != "hotkey_ocr_translate"@[11]);
    assert("hotkey_ocr_recognize"@ != "hotkey_ocr_translate"@);
    match a {
        HotkeyAction::SelectionTranslate => {},
        HotkeyAction::InputTranslate => {},
        HotkeyAction::OcrRecognize => {},
        HotkeyAction::OcrTranslate => {},
    }
}

/// A shortcut that the system registered for an action runs that action:
/// after the registry binds the action's name to `hotkey`, pressing any
/// shortcut with the same normal form finds the action again.
pub proof fn law_registered_shortcut_runs_action(
    before: Bindings,
    action: HotkeyAction,
    hotkey: Seq<char>,
    pressed: Seq<char>,
)
    requires
        normalized_shortcut(pressed) == normalized_shortcut(hotkey),
    ensures
        match action_for(before.insert(normalized_shortcut(hotkey), action.name_of()), pressed) {
            Some(name) => action_named(name) == Some(action),
            None => false,
        },
{
    law_action_names_round_trip(action);
}

/// Each action's configuration name selects that action, and `all` selects
/// the four actions in this order: selection, input, text recognition,
/// screenshot translation.
pub proof fn law_action_names()
    ensures
        action_named("hotkey_selection_translate"@) == Some(HotkeyAction::SelectionTranslate),
        action_named("hotkey_input_translate"@) == Some(HotkeyAction::InputTranslate),
        action_named("hotkey_ocr_recognize"@) == Some(HotkeyAction::OcrRecognize),
        action_named("hotkey_ocr_translate"@) == Some(HotkeyAction::OcrTranslate),
        requested_actions("all"@) == seq![
            HotkeyAction::SelectionTranslate,
            HotkeyAction::InputTranslate,
            HotkeyAction::OcrRecognize,
            HotkeyAction::OcrTranslate,
        ],
{
    law_action_names_round_trip(HotkeyAction::SelectionTranslate);
    law_action_names_round_trip(HotkeyAction::InputTranslate);
    law_action_names_round_trip(HotkeyAction::OcrRecognize);
    law_action_names_round_trip(HotkeyAction::OcrTranslate);
}

} // verus!
