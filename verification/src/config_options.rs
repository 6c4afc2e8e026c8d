//! Session config options and modes: what is shown of them, and how a
//! requested value is applied.

use crate::event::{
    ConfigOptionCategory, ConfigOptionCategoryV, ConfigOptionChoice, ConfigOptionChoiceV,
    ConfigOptionDescriptor, ConfigOptionDescriptorV, Event, EventV, ModeInfo, ModeInfoV,
};
use crate::model;
use crate::model::Duplicate;
use crate::text;
use crate::wire::{
    ConfigCategory, ConfigCategoryV, ConfigKind, ConfigKindV, ConfigOption, ConfigOptionV,
    SelectOption, SelectOptionV, SelectOptions, SelectOptionsV, SessionModes, SessionModesV,
};
use vstd::prelude::*;

verus! {

/// The category under which an option is shown. An option without one, and
/// one whose category has no name, goes under the empty name.
pub open spec fn shown_category(category: Option<ConfigCategoryV>) -> ConfigOptionCategoryV {
    match category {
        Some(ConfigCategoryV::Mode) => ConfigOptionCategoryV::Mode,
        Some(ConfigCategoryV::Model) => ConfigOptionCategoryV::Model,
        Some(ConfigCategoryV::ThoughtLevel) => ConfigOptionCategoryV::ThoughtLevel,
        Some(ConfigCategoryV::ModelConfig) => ConfigOptionCategoryV::Other("model_config"@),
        Some(ConfigCategoryV::Other(name)) => ConfigOptionCategoryV::Other(name),
        Some(ConfigCategoryV::Unknown) | None => ConfigOptionCategoryV::Other(Seq::empty()),
    }
}

/// A value of a select option as it is shown.
pub open spec fn choice(option: SelectOptionV) -> ConfigOptionChoiceV {
    ConfigOptionChoiceV {
        value: option.value,
        name: option.name,
        description: option.description,
    }
}

/// The values of a list as they are shown.
pub open spec fn choices(options: Seq<SelectOptionV>) -> Seq<ConfigOptionChoiceV> {
    options.map_values(|option: SelectOptionV| choice(option))
}

/// The values of all groups, one group after the other.
pub open spec fn grouped_choices(groups: Seq<Seq<SelectOptionV>>) -> Seq<ConfigOptionChoiceV>
    decreases groups.len(),
{
    if groups.len() == 0 {
        seq![]
    } else {
        grouped_choices(groups.drop_last()) + choices(groups.last())
    }
}

/// The values of a select option as they are shown.
pub open spec fn all_choices(options: SelectOptionsV) -> Seq<ConfigOptionChoiceV> {
    match options {
        SelectOptionsV::Ungrouped(list) => choices(list),
        SelectOptionsV::Grouped(groups) => grouped_choices(groups),
        SelectOptionsV::Unknown => seq![],
    }
}

/// A config option as it is shown. Only select options are.
pub open spec fn descriptor(option: ConfigOptionV) -> Option<ConfigOptionDescriptorV> {
    match option.kind {
        ConfigKindV::Select { current_value, options } => Some(
            ConfigOptionDescriptorV {
                id: option.id,
                name: option.name,
                description: option.description,
                category: shown_category(option.category),
                current_value,
                options: all_choices(options),
            },
        ),
        ConfigKindV::Unknown => None,
    }
}

/// The options of a list that are shown, in its order.
pub open spec fn descriptors(options: Seq<ConfigOptionV>) -> Seq<ConfigOptionDescriptorV>
    decreases options.len(),
{
    if options.len() == 0 {
        seq![]
    } else {
        model::with_some(descriptors(options.drop_last()), descriptor(options.last()))
    }
}

/// The event that a list of options gives rise to. A list that is there but
/// empty is a full replacement, and gives an event too.
pub open spec fn options_event(options: Option<Seq<ConfigOptionV>>) -> Option<EventV> {
    match options {
        Some(list) => Some(EventV::ConfigOptionsUpdated { options: descriptors(list) }),
        None => None,
    }
}

fn map_choices(options: Vec<SelectOption>) -> (r: Vec<ConfigOptionChoice>)
    ensures
        r.deep_view() == choices(options.deep_view()),
{
    let ghost all = options.deep_view();
    let mut r: Vec<ConfigOptionChoice> = model::empty();
    let mut i: usize = 0;
    proof {
        assert(choices(all.take(0)) =~= Seq::<ConfigOptionChoiceV>::empty());
    }
    while i < options.len()
        invariant
            i <= options@.len(),
            all == options.deep_view(),
            r.deep_view() == choices(all.take(i as int)),
        decreases options@.len() - i,
    {
        let option = &options[i];
        proof {
            assert(choices(all.take(i + 1)) =~= choices(all.take(i as int)).push(
                choice(option.deep_view()),
            ));
        }
        model::push(
            &mut r,
            ConfigOptionChoice {
                value: option.value.clone(),
                name: option.name.clone(),
                description: option.description.duplicate(),
            },
        );
        i = i + 1;
    }
    proof {
        assert(all.take(i as int) =~= all);
    }
    r
}

fn map_groups(groups: Vec<Vec<SelectOption>>) -> (r: Vec<ConfigOptionChoice>)
    ensures
        r.deep_view() == grouped_choices(groups.deep_view()),
{
    let ghost all = groups.deep_view();
    let mut r: Vec<ConfigOptionChoice> = model::empty();
    let mut i: usize = 0;
    while i < groups.len()
        invariant
            i <= groups@.len(),
            all == groups.deep_view(),
            r.deep_view() == grouped_choices(all.take(i as int)),
        decreases groups@.len() - i,
    {
        let group = groups[i].duplicate();
        proof {
            assert(all.take(i + 1).drop_last() =~= all.take(i as int));
        }
        model::extend(&mut r, map_choices(group));
        i = i + 1;
    }
    proof {
        assert(all.take(i as int) =~= all);
    }
    r
}

fn map_category(category: Option<ConfigCategory>) -> (r: ConfigOptionCategory)
    ensures
        r.deep_view() == shown_category(category.deep_view()),
{
    match category {
        Some(ConfigCategory::Mode) => ConfigOptionCategory::Mode,
        Some(ConfigCategory::Model) => ConfigOptionCategory::Model,
        Some(ConfigCategory::ThoughtLevel) => ConfigOptionCategory::ThoughtLevel,
        Some(ConfigCategory::ModelConfig) => ConfigOptionCategory::Other("model_config".to_owned()),
        Some(ConfigCategory::Other(name)) => ConfigOptionCategory::Other(name),
        Some(ConfigCategory::Unknown) | None => {
            let name = String::new();
            proof {
                assert(name@ =~= Seq::<char>::empty());
            }
            ConfigOptionCategory::Other(name)
        },
    }
}

/// Builds what is shown of a config option; nothing for one that is not a
/// select option.
pub fn map_acp_config_option(option: ConfigOption) -> (r: Option<ConfigOptionDescriptor>)
    ensures
        r.deep_view() == descriptor(option.deep_view()),
{
    match option.kind {
        ConfigKind::Select { current_value, options } => {
            let shown = match options {
                SelectOptions::Ungrouped(list) => map_choices(list),
                SelectOptions::Grouped(groups) => map_groups(groups),
                SelectOptions::Unknown => model::empty(),
            };
            Some(
                ConfigOptionDescriptor {
                    id: option.id,
                    name: option.name,
                    description: option.description,
                    category: map_category(option.category),
                    current_value,
                    options: shown,
                },
            )
        },
        ConfigKind::Unknown => None,
    }
}

/// The options of a list that are shown, in its order.
pub fn map_config_options(options: &Vec<ConfigOption>) -> (r: Vec<ConfigOptionDescriptor>)
    ensures
        r.deep_view() == descriptors(options.deep_view()),
{
    let ghost all = options.deep_view();
    let mut r: Vec<ConfigOptionDescriptor> = model::empty();
    let mut i: usize = 0;
    while i < options.len()
        invariant
            i <= options@.len(),
            all == options.deep_view(),
            r.deep_view() == descriptors(all.take(i as int)),
        decreases options@.len() - i,
    {
        let shown = map_acp_config_option(options[i].duplicate());
        proof {
            assert(all.take(i + 1).drop_last() =~= all.take(i as int));
        }
        model::push_some(&mut r, shown);
        i = i + 1;
    }
    proof {
        assert(all.take(i as int) =~= all);
    }
    r
}

/// Builds the `ConfigOptionsUpdated` event of a response, or nothing where
/// the response carried no options.
pub fn config_options_event(raw: &Option<Vec<ConfigOption>>) -> (r: Option<Event>)
    ensures
        r.deep_view() == options_event(raw.deep_view()),
{
    match raw {
        Some(options) => Some(
            Event::ConfigOptionsUpdated { options: map_config_options(options) },
        ),
        None => None,
    }
}

/// What a config option is set for.
#[derive(Debug, Clone, Copy, PartialEq, Eq, Structural)]
pub enum ConfigOptionDispatchPurpose {
    Generic,
    Mode,
}

/// The events of a config option that the agent has set.
pub open spec fn success_events(
    options: Seq<ConfigOptionV>,
    value: Seq<char>,
    purpose: ConfigOptionDispatchPurpose,
) -> Seq<EventV> {
    let updated = EventV::ConfigOptionsUpdated { options: descriptors(options) };
    match purpose {
        ConfigOptionDispatchPurpose::Mode => seq![
            updated,
            EventV::CurrentModeChanged { current_mode_id: value },
        ],
        ConfigOptionDispatchPurpose::Generic => seq![updated],
    }
}

/// The event of a config option that the agent has refused to set.
pub open spec fn failure_event(
    config_id: Seq<char>,
    value: Seq<char>,
    reason: Seq<char>,
    purpose: ConfigOptionDispatchPurpose,
) -> EventV {
    match purpose {
        ConfigOptionDispatchPurpose::Generic => EventV::ConfigOptionSwitchFailed {
            config_id,
            value,
            reason,
        },
        ConfigOptionDispatchPurpose::Mode => EventV::ModeSwitchFailed { mode_id: value, reason },
    }
}

/// The events of a config option that the agent has set: the options as they
/// are now, and for a mode the mode too.
pub fn config_option_success_events(
    options: Vec<ConfigOption>,
    value: String,
    purpose: ConfigOptionDispatchPurpose,
) -> (r: Vec<Event>)
    ensures
        r.deep_view() == success_events(options.deep_view(), value@, purpose),
{
    let updated = Event::ConfigOptionsUpdated { options: map_config_options(&options) };
    match purpose {
        ConfigOptionDispatchPurpose::Mode => model::two(
            updated,
            Event::CurrentModeChanged { current_mode_id: value },
        ),
        ConfigOptionDispatchPurpose::Generic => model::one(updated),
    }
}

/// The event of a config option that the agent has refused to set.
pub fn config_option_failure_event(
    config_id: String,
    value: String,
    reason: String,
    purpose: ConfigOptionDispatchPurpose,
) -> (r: Event)
    ensures
        r.deep_view() == failure_event(config_id@, value@, reason@, purpose),
{
    match purpose {
        ConfigOptionDispatchPurpose::Generic => Event::ConfigOptionSwitchFailed {
            config_id,
            value,
            reason,
        },
        ConfigOptionDispatchPurpose::Mode => Event::ModeSwitchFailed { mode_id: value, reason },
    }
}

/// The events that follow the agent's answer to a request to set a config
/// option.
pub open spec fn reply_events(
    config_id: Seq<char>,
    value: Seq<char>,
    purpose: ConfigOptionDispatchPurpose,
    reply: Result<Seq<ConfigOptionV>, Seq<char>>,
) -> Seq<EventV> {
    match reply {
        Ok(options) => success_events(options, value, purpose),
        Err(reason) => seq![failure_event(config_id, value, reason, purpose)],
    }
}

/// The events that follow the agent's answer to a request to set a config
/// option: `Ok` with the options as they are now, or the reason of a refusal.
pub fn config_option_reply_events(
    config_id: String,
    value: String,
    purpose: ConfigOptionDispatchPurpose,
    reply: Result<Vec<ConfigOption>, String>,
) -> (r: Vec<Event>)
    ensures
        r.deep_view() == reply_events(
            config_id@,
            value@,
            purpose,
            match reply {
                Ok(options) => Ok(options.deep_view()),
                Err(reason) => Err(reason@),
            },
        ),
{
    match reply {
        Ok(options) => config_option_success_events(options, value, purpose),
        Err(reason) => model::one(config_option_failure_event(config_id, value, reason, purpose)),
    }
}

/// Whether `option` is a select option of the category `category`.
pub open spec fn selects(option: ConfigOptionV, category: ConfigCategoryV) -> bool {
    option.category == Some(category) && option.kind is Select
}

/// The id of the first select option of a category.
pub open spec fn first_select_id(
    options: Seq<ConfigOptionV>,
    category: ConfigCategoryV,
) -> Option<Seq<char>>
    decreases options.len(),
{
    if options.len() == 0 {
        None
    } else if selects(options[0], category) {
        Some(options[0].id)
    } else {
        first_select_id(options.drop_first(), category)
    }
}

proof fn lemma_first_select_skip(options: Seq<ConfigOptionV>, category: ConfigCategoryV, n: int)
    requires
        0 <= n <= options.len(),
        forall|i: int| 0 <= i < n ==> !selects(#[trigger] options[i], category),
    ensures
        first_select_id(options, category) == first_select_id(options.skip(n), category),
    decreases n,
{
    if n == 0 {
        assert(options.skip(0) =~= options);
    } else {
        assert(!selects(options[0], category));
        let rest = options.drop_first();
        assert forall|i: int| 0 <= i < n - 1 implies !selects(#[trigger] rest[i], category) by {
            assert(!selects(options[i + 1], category));
        }
        lemma_first_select_skip(rest, category, n - 1);
        assert(rest.skip(n - 1) =~= options.skip(n));
    }
}

/// What a select option is looked up by.
#[derive(Debug, Clone, Copy, PartialEq, Eq, Structural)]
enum Wanted {
    Mode,
    Model,
    ThoughtLevel,
}

spec fn wanted_category(wanted: Wanted) -> ConfigCategoryV {
    match wanted {
        Wanted::Mode => ConfigCategoryV::Mode,
        Wanted::Model => ConfigCategoryV::Model,
        Wanted::ThoughtLevel => ConfigCategoryV::ThoughtLevel,
    }
}

fn is_wanted(option: &ConfigOption, wanted: Wanted) -> (r: bool)
    ensures
        r == selects(option.deep_view(), wanted_category(wanted)),
{
    let matching = match (&option.category, wanted) {
        (Some(ConfigCategory::Mode), Wanted::Mode) => true,
        (Some(ConfigCategory::Model), Wanted::Model) => true,
        (Some(ConfigCategory::ThoughtLevel), Wanted::ThoughtLevel) => true,
        _ => false,
    };
    match &option.kind {
        ConfigKind::Select { .. } => matching,
        ConfigKind::Unknown => false,
    }
}

fn find_select(options: &Vec<ConfigOption>, wanted: Wanted) -> (r: Option<String>)
    ensures
        r.deep_view() == first_select_id(options.deep_view(), wanted_category(wanted)),
{
    let ghost all = options.deep_view();
    let ghost category = wanted_category(wanted);
    let mut i: usize = 0;
    while i < options.len()
        invariant
            i <= options@.len(),
            all == options.deep_view(),
            category == wanted_category(wanted),
            forall|j: int| 0 <= j < i ==> !selects(#[trigger] all[j], category),
        decreases options@.len() - i,
    {
        if is_wanted(&options[i], wanted) {
            proof {
                lemma_first_select_skip(all, category, i as int);
                assert(all.skip(i as int)[0] == all[i as int]);
            }
            return Some(options[i].id.clone());
        }
        i = i + 1;
    }
    proof {
        lemma_first_select_skip(all, category, all.len() as int);
    }
    None
}

/// The id of the first select option for the reasoning effort.
pub fn thought_level_config_id(options: &Vec<ConfigOption>) -> (r: Option<String>)
    ensures
        r.deep_view() == first_select_id(options.deep_view(), ConfigCategoryV::ThoughtLevel),
{
    find_select(options, Wanted::ThoughtLevel)
}

/// The id of the first select option for the mode.
pub fn mode_config_id(options: &Vec<ConfigOption>) -> (r: Option<String>)
    ensures
        r.deep_view() == first_select_id(options.deep_view(), ConfigCategoryV::Mode),
{
    find_select(options, Wanted::Mode)
}

/// The id of the first select option for the model. It goes by the option's
/// category: its id may be anything.
pub fn model_config_id(options: &Vec<ConfigOption>) -> (r: Option<String>)
    ensures
        r.deep_view() == first_select_id(options.deep_view(), ConfigCategoryV::Model),
{
    find_select(options, Wanted::Model)
}

/// [`first_select_id`] over options that may be missing.
pub open spec fn opt_select_id(
    options: Option<Seq<ConfigOptionV>>,
    category: ConfigCategoryV,
) -> Option<Seq<char>> {
    match options {
        Some(list) => first_select_id(list, category),
        None => None,
    }
}

/// The channels through which a session's mode and model are set: the modes
/// it lists, and the ids of the config options for the mode, the model and
/// the reasoning effort.
#[derive(Debug, PartialEq, Eq)]
pub struct SessionChannels {
    pub available_mode_ids: Option<Vec<String>>,
    pub mode_config_option_id: Option<String>,
    pub model_config_option_id: Option<String>,
    pub thought_level_config_option_id: Option<String>,
}

/// The model of [`SessionChannels`].
#[verifier::ext_equal]
pub struct SessionChannelsV {
    pub available_mode_ids: Option<Seq<Seq<char>>>,
    pub mode_config_option_id: Option<Seq<char>>,
    pub model_config_option_id: Option<Seq<char>>,
    pub thought_level_config_option_id: Option<Seq<char>>,
}

impl DeepView for SessionChannels {
    type V = SessionChannelsV;

    open spec fn deep_view(&self) -> SessionChannelsV {
        SessionChannelsV {
            available_mode_ids: self.available_mode_ids.deep_view(),
            mode_config_option_id: self.mode_config_option_id.deep_view(),
            model_config_option_id: self.model_config_option_id.deep_view(),
            thought_level_config_option_id: self.thought_level_config_option_id.deep_view(),
        }
    }
}

impl Duplicate for SessionChannels {
    fn duplicate(&self) -> (r: Self) {
        SessionChannels {
            available_mode_ids: self.available_mode_ids.duplicate(),
            mode_config_option_id: self.mode_config_option_id.duplicate(),
            model_config_option_id: self.model_config_option_id.duplicate(),
            thought_level_config_option_id: self.thought_level_config_option_id.duplicate(),
        }
    }
}

/// The ids of a list of modes.
pub open spec fn mode_ids(modes: Seq<ModeInfoV>) -> Seq<Seq<char>> {
    modes.map_values(|mode: ModeInfoV| mode.id)
}

/// The channels that a session with these modes and options has.
pub open spec fn channels_of(
    modes: Option<SessionModesV>,
    options: Option<Seq<ConfigOptionV>>,
) -> SessionChannelsV {
    SessionChannelsV {
        available_mode_ids: match modes {
            Some(modes) => Some(mode_ids(modes.available_modes)),
            None => None,
        },
        mode_config_option_id: opt_select_id(options, ConfigCategoryV::Mode),
        model_config_option_id: opt_select_id(options, ConfigCategoryV::Model),
        thought_level_config_option_id: opt_select_id(options, ConfigCategoryV::ThoughtLevel),
    }
}

fn collect_mode_ids(modes: &Vec<ModeInfo>) -> (r: Vec<String>)
    ensures
        r.deep_view() == mode_ids(modes.deep_view()),
{
    let mut r: Vec<String> = Vec::new();
    let mut i: usize = 0;
    while i < modes.len()
        invariant
            i <= modes@.len(),
            r@.len() == i,
            forall|j: int| 0 <= j < i ==> (#[trigger] r@[j])@ == modes@[j].id@,
        decreases modes@.len() - i,
    {
        r.push(modes[i].id.clone());
        i = i + 1;
    }
    proof {
        assert(r.deep_view() =~= mode_ids(modes.deep_view()));
    }
    r
}

impl SessionChannels {
    /// The channels of a session from the modes and options of the response
    /// that established it.
    pub fn new(modes: &Option<SessionModes>, options: &Option<Vec<ConfigOption>>) -> (r: Self)
        ensures
            r.deep_view() == channels_of(modes.deep_view(), options.deep_view()),
    {
        let available_mode_ids = match modes {
            Some(modes) => Some(collect_mode_ids(&modes.available_modes)),
            None => None,
        };
        match options {
            Some(options) => SessionChannels {
                available_mode_ids,
                mode_config_option_id: mode_config_id(options),
                model_config_option_id: model_config_id(options),
                thought_level_config_option_id: thought_level_config_id(options),
            },
            None => SessionChannels {
                available_mode_ids,
                mode_config_option_id: None,
                model_config_option_id: None,
                thought_level_config_option_id: None,
            },
        }
    }
}

/// The event that announces the modes of a session.
pub open spec fn modes_event(modes: SessionModesV) -> EventV {
    EventV::ModesAvailable {
        current_mode_id: modes.current_mode_id,
        modes: modes.available_modes,
    }
}

/// The event that announces the modes of a session.
pub fn modes_available_event(modes: &SessionModes) -> (r: Event)
    ensures
        r.deep_view() == modes_event(modes.deep_view()),
{
    Event::ModesAvailable {
        current_mode_id: modes.current_mode_id.clone(),
        modes: modes.available_modes.duplicate(),
    }
}

/// The channel through which a mode is set.
#[derive(Debug, Clone, Copy, PartialEq, Eq)]
pub enum ModeSetTarget<'a> {
    ConfigOption(&'a str),
    SessionMode,
}

/// The model of [`ModeSetTarget`].
pub enum ModeSetTargetV {
    ConfigOption(Seq<char>),
    SessionMode,
}

impl<'a> DeepView for ModeSetTarget<'a> {
    type V = ModeSetTargetV;

    open spec fn deep_view(&self) -> ModeSetTargetV {
        match self {
            ModeSetTarget::ConfigOption(id) => ModeSetTargetV::ConfigOption(id@),
            ModeSetTarget::SessionMode => ModeSetTargetV::SessionMode,
        }
    }
}

/// Whether a session lists the mode `mode_id`, up to underscores and case.
pub open spec fn advertises(ids: Seq<Seq<char>>, mode_id: Seq<char>) -> bool {
    exists|i: int|
        0 <= i < ids.len() && text::normalized(#[trigger] ids[i]) == text::normalized(mode_id)
}

/// The channel through which the mode `mode_id` is set. A config option for
/// the mode always wins. Otherwise the mode has to be one that the session
/// lists, where it lists any.
pub open spec fn mode_target(
    mode_id: Seq<char>,
    available_mode_ids: Option<Seq<Seq<char>>>,
    mode_config_option_id: Option<Seq<char>>,
) -> Option<ModeSetTargetV> {
    match (mode_config_option_id, available_mode_ids) {
        (Some(config_id), _) => Some(ModeSetTargetV::ConfigOption(config_id)),
        (None, None) => Some(ModeSetTargetV::SessionMode),
        (None, Some(ids)) => if advertises(ids, mode_id) {
            Some(ModeSetTargetV::SessionMode)
        } else {
            None
        },
    }
}

fn is_advertised(ids: &Vec<String>, mode_id: &str) -> (r: bool)
    ensures
        r == advertises(ids.deep_view(), mode_id@),
{
    let ghost all = ids.deep_view();
    let normalized = text::normalize(mode_id);
    let mut i: usize = 0;
    while i < ids.len()
        invariant
            i <= ids@.len(),
            all == ids.deep_view(),
            normalized@ == text::normalized(mode_id@),
            forall|j: int|
                0 <= j < i ==> text::normalized(#[trigger] all[j]) != text::normalized(mode_id@),
        decreases ids@.len() - i,
    {
        let id = text::normalize(ids[i].as_str());
        assert(all[i as int] == ids@[i as int]@);
        if text::same(id.as_str(), normalized.as_str()) {
            return true;
        }
        i = i + 1;
    }
    false
}

/// Picks the channel for a requested mode.
pub fn resolve_mode_set_target<'a>(
    mode_id: &str,
    available_mode_ids: &Option<Vec<String>>,
    mode_config_option_id: Option<&'a str>,
) -> (r: Option<ModeSetTarget<'a>>)
    ensures
        r.deep_view() == mode_target(
            mode_id@,
            available_mode_ids.deep_view(),
            match mode_config_option_id {
                Some(id) => Some(id@),
                None => None,
            },
        ),
{
    if let Some(config_id) = mode_config_option_id {
        return Some(ModeSetTarget::ConfigOption(config_id));
    }
    match available_mode_ids {
        Some(ids) => {
            if is_advertised(ids, mode_id) {
                Some(ModeSetTarget::SessionMode)
            } else {
                None
            }
        },
        None => Some(ModeSetTarget::SessionMode),
    }
}

/// What is sent to the agent to set a mode.
#[derive(Debug, PartialEq, Eq)]
pub enum ModeRequest {
    /// Nothing: the session does not list the mode.
    Skip,
    /// A config option takes the mode as its value.
    ConfigOption { config_id: String, value: String },
    /// The session's mode is set.
    SessionMode { mode_id: String },
}

/// The model of [`ModeRequest`].
#[verifier::ext_equal]
pub enum ModeRequestV {
    Skip,
    ConfigOption { config_id: Seq<char>, value: Seq<char> },
    SessionMode { mode_id: Seq<char> },
}

impl DeepView for ModeRequest {
    type V = ModeRequestV;

    open spec fn deep_view(&self) -> ModeRequestV {
        match self {
            ModeRequest::Skip => ModeRequestV::Skip,
            ModeRequest::ConfigOption { config_id, value } => ModeRequestV::ConfigOption {
                config_id: config_id.deep_view(),
                value: value.deep_view(),
            },
            ModeRequest::SessionMode { mode_id } => ModeRequestV::SessionMode {
                mode_id: mode_id.deep_view(),
            },
        }
    }
}

impl Duplicate for ModeRequest {
    fn duplicate(&self) -> (r: Self) {
        match self {
            ModeRequest::Skip => ModeRequest::Skip,
            ModeRequest::ConfigOption { config_id, value } => ModeRequest::ConfigOption {
                config_id: config_id.duplicate(),
                value: value.duplicate(),
            },
            ModeRequest::SessionMode { mode_id } => ModeRequest::SessionMode {
                mode_id: mode_id.duplicate(),
            },
        }
    }
}

/// What is sent to the agent to set the mode `mode_id`.
pub open spec fn mode_request(mode_id: Seq<char>, channels: SessionChannelsV) -> ModeRequestV {
    match mode_target(mode_id, channels.available_mode_ids, channels.mode_config_option_id) {
        Some(ModeSetTargetV::ConfigOption(config_id)) => ModeRequestV::ConfigOption {
            config_id,
            value: mode_id,
        },
        Some(ModeSetTargetV::SessionMode) => ModeRequestV::SessionMode { mode_id },
        None => ModeRequestV::Skip,
    }
}

/// Decides what is sent to the agent to set the mode `mode_id`.
pub fn dispatch_set_mode(mode_id: String, channels: &SessionChannels) -> (r: ModeRequest)
    ensures
        r.deep_view() == mode_request(mode_id@, channels.deep_view()),
{
    let config_id = match &channels.mode_config_option_id {
        Some(id) => Some(id.as_str()),
        None => None,
    };
    match resolve_mode_set_target(mode_id.as_str(), &channels.available_mode_ids, config_id) {
        Some(ModeSetTarget::ConfigOption(config_id)) => ModeRequest::ConfigOption {
            config_id: config_id.to_owned(),
            value: mode_id,
        },
        Some(ModeSetTarget::SessionMode) => ModeRequest::SessionMode { mode_id },
        None => ModeRequest::Skip,
    }
}

/// The event that follows the agent's answer to a request to set the
/// session's mode.
pub open spec fn mode_reply(mode_id: Seq<char>, refusal: Option<Seq<char>>) -> EventV {
    match refusal {
        None => EventV::CurrentModeChanged { current_mode_id: mode_id },
        Some(reason) => EventV::ModeSwitchFailed { mode_id, reason },
    }
}

/// The event that follows the agent's answer to a request to set the
/// session's mode, with the reason of a refusal.
pub fn mode_reply_event(mode_id: String, refusal: Option<String>) -> (r: Event)
    ensures
        r.deep_view() == mode_reply(mode_id@, refusal.deep_view()),
{
    match refusal {
        None => Event::CurrentModeChanged { current_mode_id: mode_id },
        Some(reason) => Event::ModeSwitchFailed { mode_id, reason },
    }
}

/// A config option for the mode is authoritative: with one, whatever modes
/// the session lists, a mode is set through that option, under its own id,
/// and never refused.
pub proof fn law_config_option_mode_is_authoritative(
    mode_id: Seq<char>,
    channels: SessionChannelsV,
)
    ensures
        channels.mode_config_option_id matches Some(config_id) ==> mode_request(mode_id, channels)
            == (ModeRequestV::ConfigOption { config_id, value: mode_id }),
{
}

/// A mode is never sent on a channel where the session has said that it does
/// not know it.
pub proof fn law_unlisted_mode_is_skipped(mode_id: Seq<char>, channels: SessionChannelsV)
    requires
        channels.mode_config_option_id is None,
        channels.available_mode_ids matches Some(ids) && !advertises(ids, mode_id),
    ensures
        mode_request(mode_id, channels) is Skip,
{
}

/// An empty list of options is announced, so that options shown before do
/// not stay; a missing list is not.
pub proof fn law_empty_options_are_announced()
    ensures
        options_event(Some(Seq::empty())) == Some(
            EventV::ConfigOptionsUpdated { options: Seq::empty() },
        ),
        options_event(None) is None,
{
}

/// The select options of a list, in its order.
pub open spec fn select_options(options: Seq<ConfigOptionV>) -> Seq<ConfigOptionV> {
    options.filter(|option: ConfigOptionV| option.kind is Select)
}

/// Whether what is shown of choices is these choices, in their order.
pub open spec fn shows_choices(
    shown: Seq<ConfigOptionChoiceV>,
    offered: Seq<SelectOptionV>,
) -> bool {
    &&& shown.len() == offered.len()
    &&& forall|k: int|
        0 <= k < offered.len() ==> {
            &&& (#[trigger] shown[k]).value == offered[k].value
            &&& shown[k].name == offered[k].name
            &&& shown[k].description == offered[k].description
        }
}

/// Whether what is shown of a select option is this option: under its id and
/// name, with its current value and all the choices that it offers.
pub open spec fn shows_option(shown: ConfigOptionDescriptorV, option: ConfigOptionV) -> bool {
    &&& option.kind matches ConfigKindV::Select { current_value, options }
    &&& shown.id == option.id
    &&& shown.name == option.name
    &&& shown.description == option.description
    &&& shown.current_value == current_value
    &&& match options {
        SelectOptionsV::Ungrouped(list) => shows_choices(shown.options, list),
        SelectOptionsV::Grouped(groups) => shows_choices(shown.options, groups.flatten()),
        SelectOptionsV::Unknown => shown.options.len() == 0,
    }
    &&& match option.category {
        Some(ConfigCategoryV::Mode) => shown.category is Mode,
        Some(ConfigCategoryV::Model) => shown.category is Model,
        Some(ConfigCategoryV::ThoughtLevel) => shown.category is ThoughtLevel,
        Some(ConfigCategoryV::ModelConfig) => shown.category matches ConfigOptionCategoryV::Other(
            name,
        ) && name == "model_config"@,
        Some(ConfigCategoryV::Other(own)) => shown.category matches ConfigOptionCategoryV::Other(
            name,
        ) && name == own,
        Some(ConfigCategoryV::Unknown) | None => shown.category matches ConfigOptionCategoryV::Other(
            name,
        ) && name.len() == 0,
    }
}

/// Whether what is shown of a list of options is its select options, each with
/// all that it offers, in the order of the list.
pub open spec fn shows_options(
    shown: Seq<ConfigOptionDescriptorV>,
    options: Seq<ConfigOptionV>,
) -> bool {
    &&& shown.len() == select_options(options).len()
    &&& forall|k: int|
        0 <= k < shown.len() ==> #[trigger] shows_option(shown[k], select_options(options)[k])
}

proof fn lemma_grouped_choices_are_flat(groups: Seq<Seq<SelectOptionV>>)
    ensures
        shows_choices(grouped_choices(groups), groups.flatten()),
    decreases groups.len(),
{
    if groups.len() > 0 {
        let before = groups.drop_last();
        lemma_grouped_choices_are_flat(before);
        assert(before.push(groups.last()) =~= groups);
        before.lemma_flatten_push(groups.last());
    }
}

/// Exactly the select options of a list are shown, in its order, each under its
/// own id and name, with its own current value and all of its choices: what the
/// agent offers is what can be picked.
pub proof fn law_what_is_offered_is_shown(options: Seq<ConfigOptionV>)
    ensures
        shows_options(descriptors(options), options),
    decreases options.len(),
{
    reveal(Seq::filter);
    if options.len() > 0 {
        let before = options.drop_last();
        law_what_is_offered_is_shown(before);
        let shown = descriptors(options);
        match options.last().kind {
            ConfigKindV::Select { options: list, .. } => {
                if let SelectOptionsV::Grouped(groups) = list {
                    lemma_grouped_choices_are_flat(groups);
                }
                assert(shows_option(shown.last(), options.last()));
                assert(select_options(options) =~= select_options(before).push(options.last()));
            },
            ConfigKindV::Unknown => {},
        }
        assert forall|k: int| 0 <= k < shown.len() implies #[trigger] shows_option(
            shown[k],
            select_options(options)[k],
        ) by {
            if k < descriptors(before).len() {
                assert(shows_option(descriptors(before)[k], select_options(before)[k]));
            }
        }
    }
}

/// Whether an option is found among those that are shown.
pub open spec fn is_shown(shown: Seq<ConfigOptionDescriptorV>, option: ConfigOptionV) -> bool {
    exists|k: int| 0 <= k < shown.len() && #[trigger] shows_option(shown[k], option)
}

/// Every select option of a list is found among those that are shown of it, so
/// that a list with one is never shown as an empty one.
pub proof fn law_an_offer_is_never_shown_empty(options: Seq<ConfigOptionV>, i: int)
    requires
        0 <= i < options.len(),
        options[i].kind is Select,
    ensures
        is_shown(descriptors(options), options[i]),
        descriptors(options).len() > 0,
{
    law_what_is_offered_is_shown(options);
    options.lemma_filter_contains(|option: ConfigOptionV| option.kind is Select, i);
    let k = choose|k: int|
        0 <= k < select_options(options).len() && select_options(options)[k] == options[i];
    assert(shows_option(descriptors(options)[k], select_options(options)[k]));
}

/// A list that is there replaces what is shown, by its own options; without a
/// list nothing is said.
pub proof fn law_a_list_replaces_what_is_shown(options: Option<Seq<ConfigOptionV>>)
    ensures
        match options {
            Some(list) => options_event(options) matches Some(
                EventV::ConfigOptionsUpdated { options: shown },
            ) && shows_options(shown, list),
            None => options_event(options) is None,
        },
{
    if let Some(list) = options {
        law_what_is_offered_is_shown(list);
    }
}

/// An option that was set is shown with the list that the agent answers with;
/// where it stands for the mode, the mode is then the value asked for. An option
/// that was refused is told of with the agent's reason, as a mode where it
/// stands for the mode, and no list is shown.
pub proof fn law_answers_to_a_setting_are_told(
    config_id: Seq<char>,
    value: Seq<char>,
    purpose: ConfigOptionDispatchPurpose,
    reply: Result<Seq<ConfigOptionV>, Seq<char>>,
)
    ensures
        ({
            let events = reply_events(config_id, value, purpose, reply);
            match reply {
                Ok(list) => {
                    &&& events[0] matches EventV::ConfigOptionsUpdated { options }
                    &&& shows_options(options, list)
                    &&& match purpose {
                        ConfigOptionDispatchPurpose::Generic => events.len() == 1,
                        ConfigOptionDispatchPurpose::Mode => events.len() == 2 && events[1]
                            == (EventV::CurrentModeChanged { current_mode_id: value }),
                    }
                },
                Err(reason) => {
                    &&& events.len() == 1
                    &&& match events[0] {
                        EventV::ConfigOptionSwitchFailed {
                            config_id: told,
                            value: asked,
                            reason: why,
                        } => purpose is Generic && told == config_id && asked == value && why
                            == reason,
                        EventV::ModeSwitchFailed { mode_id, reason: why } => purpose is Mode
                            && mode_id == value && why == reason,
                        _ => false,
                    }
                },
            }
        }),
{
    if let Ok(list) = reply {
        law_what_is_offered_is_shown(list);
    }
}

/// A setting goes to the first select option of its category, and to none where
/// the list has no such option.
pub proof fn law_a_setting_goes_to_the_first_of_its_category(
    options: Seq<ConfigOptionV>,
    category: ConfigCategoryV,
    at: int,
)
    requires
        0 <= at <= options.len(),
        forall|k: int|
            0 <= k < at ==> !((#[trigger] options[k]).category == Some(category)
                && options[k].kind is Select),
        at < options.len() ==> options[at].category == Some(category) && options[at].kind is Select,
    ensures
        first_select_id(options, category) == if at < options.len() {
            Some(options[at].id)
        } else {
            None
        },
    decreases at,
{
    if at > 0 {
        let rest = options.drop_first();
        assert forall|k: int| 0 <= k < at - 1 implies !((#[trigger] rest[k]).category == Some(
            category,
        ) && rest[k].kind is Select) by {
            assert(rest[k] == options[k + 1]);
        }
        assert(!selects(options[0], category));
        law_a_setting_goes_to_the_first_of_its_category(rest, category, at - 1);
    }
}

/// A session's channels are those of its own modes and options: the ids of the
/// modes in their order, and for the mode, the model and the reasoning effort
/// the option of just that category.
pub proof fn law_channels_are_the_sessions_own(
    modes: Option<SessionModesV>,
    options: Option<Seq<ConfigOptionV>>,
)
    ensures
        ({
            let channels = channels_of(modes, options);
            &&& match modes {
                Some(modes) => {
                    &&& channels.available_mode_ids matches Some(ids)
                    &&& ids.len() == modes.available_modes.len()
                    &&& forall|k: int|
                        0 <= k < ids.len() ==> #[trigger] ids[k] == modes.available_modes[k].id
                },
                None => channels.available_mode_ids is None,
            }
            &&& match options {
                Some(list) => {
                    &&& channels.mode_config_option_id == first_select_id(
                        list,
                        ConfigCategoryV::Mode,
                    )
                    &&& channels.model_config_option_id == first_select_id(
                        list,
                        ConfigCategoryV::Model,
                    )
                    &&& channels.thought_level_config_option_id == first_select_id(
                        list,
                        ConfigCategoryV::ThoughtLevel,
                    )
                },
                None => {
                    &&& channels.mode_config_option_id is None
                    &&& channels.model_config_option_id is None
                    &&& channels.thought_level_config_option_id is None
                },
            }
        }),
{
}

/// Without an option for the mode, a mode that the session lists is asked for
/// under the id that was given; so is any mode of a session that lists none.
pub proof fn law_listed_modes_are_asked_for(
    mode_id: Seq<char>,
    channels: SessionChannelsV,
    i: int,
)
    requires
        channels.mode_config_option_id is None,
        channels.available_mode_ids matches Some(ids) ==> 0 <= i < ids.len() && (ids[i] == mode_id
            || text::normalized(ids[i]) == text::normalized(mode_id)),
    ensures
        mode_request(mode_id, channels) == (ModeRequestV::SessionMode { mode_id }),
{
    if let Some(ids) = channels.available_mode_ids {
        assert(text::normalized(ids[i]) == text::normalized(mode_id));
    }
}

/// A mode is taken for set where the agent accepts it, and for refused, with
/// the agent's reason, where it does not.
pub proof fn law_answers_to_a_mode_are_told(mode_id: Seq<char>, refusal: Option<Seq<char>>)
    ensures
        match mode_reply(mode_id, refusal) {
            EventV::CurrentModeChanged { current_mode_id } => refusal is None && current_mode_id
                == mode_id,
            EventV::ModeSwitchFailed { mode_id: told, reason } => refusal == Some(reason) && told
                == mode_id,
            _ => false,
        },
{
}

/// The modes of a session are announced as they are, with the current one.
pub proof fn law_modes_are_announced_as_they_are(modes: SessionModesV)
    ensures
        modes_event(modes) matches EventV::ModesAvailable { current_mode_id, modes: told }
            && current_mode_id == modes.current_mode_id && told == modes.available_modes,
{
}

}
