//! What is known of each agent: the behaviour that only some agents have.

use crate::json::{Json, JsonV};
use crate::model;
use crate::model::Duplicate;
use vstd::prelude::*;

verus! {

/// What is known of an agent.
#[derive(Debug, PartialEq, Eq)]
pub struct AgentProfile {
    pub key: String,
    /// The mode in which the agent asks for no permission.
    pub yolo_mode_id: Option<String>,
    /// Whether the agent announces a plan by leaving its plan mode.
    pub supports_exit_plan_mode: bool,
    /// Whether the agent has tools that wake it up later.
    pub supports_wakeup_tools: bool,
    /// Whether the agent sends keepalives for long-running tools.
    pub emits_heartbeat_keepalives: bool,
    /// Whether the agent has a tool that recalls memories.
    pub supports_memory_recall: bool,
    /// Where in a tool call's metadata the agent names the call's parent.
    pub parent_meta_namespaces: Vec<String>,
}

/// The model of [`AgentProfile`].
#[verifier::ext_equal]
pub struct AgentProfileV {
    pub key: Seq<char>,
    pub yolo_mode_id: Option<Seq<char>>,
    pub supports_exit_plan_mode: bool,
    pub supports_wakeup_tools: bool,
    pub emits_heartbeat_keepalives: bool,
    pub supports_memory_recall: bool,
    pub parent_meta_namespaces: Seq<Seq<char>>,
}

impl DeepView for AgentProfile {
    type V = AgentProfileV;

    open spec fn deep_view(&self) -> AgentProfileV {
        AgentProfileV {
            key: self.key.deep_view(),
            yolo_mode_id: self.yolo_mode_id.deep_view(),
            supports_exit_plan_mode: self.supports_exit_plan_mode.deep_view(),
            supports_wakeup_tools: self.supports_wakeup_tools.deep_view(),
            emits_heartbeat_keepalives: self.emits_heartbeat_keepalives.deep_view(),
            supports_memory_recall: self.supports_memory_recall.deep_view(),
            parent_meta_namespaces: self.parent_meta_namespaces.deep_view(),
        }
    }
}

impl Duplicate for AgentProfile {
    fn duplicate(&self) -> (r: Self) {
        AgentProfile {
            key: self.key.duplicate(),
            yolo_mode_id: self.yolo_mode_id.duplicate(),
            supports_exit_plan_mode: self.supports_exit_plan_mode.duplicate(),
            supports_wakeup_tools: self.supports_wakeup_tools.duplicate(),
            emits_heartbeat_keepalives: self.emits_heartbeat_keepalives.duplicate(),
            supports_memory_recall: self.supports_memory_recall.duplicate(),
            parent_meta_namespaces: self.parent_meta_namespaces.duplicate(),
        }
    }
}

/// The profile of the agent whose metadata is named `claudeCode`, registered
/// under the key `key`.
pub open spec fn claude_code_profile(key: Seq<char>) -> AgentProfileV {
    AgentProfileV {
        key,
        yolo_mode_id: Some("bypassPermissions"@),
        supports_exit_plan_mode: true,
        supports_wakeup_tools: true,
        emits_heartbeat_keepalives: true,
        supports_memory_recall: true,
        parent_meta_namespaces: seq!["claudeCode"@],
    }
}

/// The profile of Codex.
pub open spec fn codex_profile() -> AgentProfileV {
    AgentProfileV {
        key: "codex"@,
        yolo_mode_id: Some("agent-full-access"@),
        ..plain_profile("codex"@)
    }
}

/// The profile of an agent with none of the special behaviour.
pub open spec fn plain_profile(key: Seq<char>) -> AgentProfileV {
    AgentProfileV {
        key,
        yolo_mode_id: None,
        supports_exit_plan_mode: false,
        supports_wakeup_tools: false,
        emits_heartbeat_keepalives: false,
        supports_memory_recall: false,
        parent_meta_namespaces: seq![],
    }
}

/// The profile of the agent whose metadata is named `claudeCode`, registered
/// under the key `key`.
pub fn claude_code(key: &str) -> (r: AgentProfile)
    ensures
        r.deep_view() == claude_code_profile(key@),
{
    AgentProfile {
        key: key.to_owned(),
        yolo_mode_id: Some("bypassPermissions".to_owned()),
        supports_exit_plan_mode: true,
        supports_wakeup_tools: true,
        emits_heartbeat_keepalives: true,
        supports_memory_recall: true,
        parent_meta_namespaces: model::one("claudeCode".to_owned()),
    }
}

/// The profile of Codex.
pub fn codex() -> (r: AgentProfile)
    ensures
        r.deep_view() == codex_profile(),
{
    let mut r = plain("codex");
    r.yolo_mode_id = Some("agent-full-access".to_owned());
    r
}

/// The profile of an agent with none of the special behaviour.
pub fn plain(key: &str) -> (r: AgentProfile)
    ensures
        r.deep_view() == plain_profile(key@),
{
    AgentProfile {
        key: key.to_owned(),
        yolo_mode_id: None,
        supports_exit_plan_mode: false,
        supports_wakeup_tools: false,
        emits_heartbeat_keepalives: false,
        supports_memory_recall: false,
        parent_meta_namespaces: model::empty(),
    }
}

/// The parent that a tool call's metadata names: the `parentToolUseId` of
/// the first namespace that has one.
pub open spec fn parent_of(namespaces: Seq<Seq<char>>, meta: Option<JsonV>) -> Option<Seq<char>>
    decreases namespaces.len(),
{
    match meta {
        Some(value) => if namespaces.len() == 0 {
            None
        } else {
            match named_parent(value, namespaces[0]) {
                Some(id) => Some(id),
                None => parent_of(namespaces.drop_first(), meta),
            }
        },
        None => None,
    }
}

/// The `parentToolUseId` that `meta` holds in a namespace.
pub open spec fn named_parent(meta: JsonV, namespace: Seq<char>) -> Option<Seq<char>> {
    match meta.get(namespace) {
        Some(fields) => fields.str_at("parentToolUseId"@),
        None => None,
    }
}

proof fn lemma_parent_skip(namespaces: Seq<Seq<char>>, meta: JsonV, n: int)
    requires
        0 <= n <= namespaces.len(),
        forall|i: int| 0 <= i < n ==> named_parent(meta, #[trigger] namespaces[i]) is None,
    ensures
        parent_of(namespaces, Some(meta)) == parent_of(namespaces.skip(n), Some(meta)),
    decreases n,
{
    if n == 0 {
        assert(namespaces.skip(0) =~= namespaces);
    } else {
        assert(named_parent(meta, namespaces[0]) is None);
        let rest = namespaces.drop_first();
        assert forall|i: int| 0 <= i < n - 1 implies named_parent(meta, #[trigger] rest[i]) is None by {
            assert(named_parent(meta, namespaces[i + 1]) is None);
        }
        lemma_parent_skip(rest, meta, n - 1);
        assert(rest.skip(n - 1) =~= namespaces.skip(n));
    }
}

impl AgentProfile {
    /// The parent that a tool call's metadata names.
    pub fn parent_tool_use_id_from_meta(&self, meta: &Option<Json>) -> (r: Option<String>)
        ensures
            r.deep_view() == parent_of(
                self.deep_view().parent_meta_namespaces,
                meta.deep_view(),
            ),
    {
        let value = match meta {
            Some(value) => value,
            None => return None,
        };
        let ghost all = self.parent_meta_namespaces.deep_view();
        let mut i: usize = 0;
        while i < self.parent_meta_namespaces.len()
            invariant
                i <= self.parent_meta_namespaces@.len(),
                all == self.parent_meta_namespaces.deep_view(),
                *meta == Some(*value),
                forall|j: int|
                    0 <= j < i ==> named_parent(value.deep_view(), #[trigger] all[j]) is None,
            decreases self.parent_meta_namespaces@.len() - i,
        {
            let namespace = self.parent_meta_namespaces[i].as_str();
            assert(all[i as int] == namespace@);
            let id = match value.get(namespace) {
                Some(fields) => fields.str_at("parentToolUseId"),
                None => None,
            };
            if id.is_some() {
                proof {
                    lemma_parent_skip(all, value.deep_view(), i as int);
                    assert(all.skip(i as int)[0] == all[i as int]);
                }
                return id;
            }
            i = i + 1;
        }
        proof {
            lemma_parent_skip(all, value.deep_view(), all.len() as int);
        }
        None
    }

    /// Whether the agent has a tool that recalls memories.
    pub fn supports_memory_recall_tool(&self) -> (r: bool)
        ensures
            r == self.deep_view().supports_memory_recall,
    {
        self.supports_memory_recall
    }
}

/// The parent of a tool call is what the first namespace with a parent names; no
/// other namespace is looked at, and without metadata there is none.
pub proof fn law_the_first_namespace_names_the_parent(
    namespaces: Seq<Seq<char>>,
    meta: JsonV,
    at: int,
)
    requires
        0 <= at <= namespaces.len(),
        forall|k: int|
            0 <= k < at ==> meta.get(#[trigger] namespaces[k]) is None || meta.get(
                namespaces[k],
            )->0.str_at("parentToolUseId"@) is None,
        at < namespaces.len() ==> meta.get(namespaces[at]) is Some && meta.get(
            namespaces[at],
        )->0.str_at("parentToolUseId"@) is Some,
    ensures
        parent_of(namespaces, Some(meta)) == if at < namespaces.len() {
            meta.get(namespaces[at])->0.str_at("parentToolUseId"@)
        } else {
            None
        },
        parent_of(namespaces, None) is None,
    decreases at,
{
    if at > 0 {
        let rest = namespaces.drop_first();
        assert forall|k: int| 0 <= k < at - 1 implies meta.get(#[trigger] rest[k]) is None
            || meta.get(rest[k])->0.str_at("parentToolUseId"@) is None by {
            assert(rest[k] == namespaces[k + 1]);
        }
        assert(meta.get(namespaces[0]) is None || meta.get(namespaces[0])->0.str_at(
            "parentToolUseId"@,
        ) is None);
        law_the_first_namespace_names_the_parent(rest, meta, at - 1);
    }
}

}
