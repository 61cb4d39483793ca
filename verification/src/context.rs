//! The enumerations that go to the tool as fixed words, and the run
//! contexts that go to it as JSON.

use crate::json::json_quote;
use crate::json::json_string_literal;
use crate::text::same_text;
use vstd::prelude::*;
use vstd::string::StringExecFns;

verus! {

/// What started a deployment.
#[derive(Debug, Clone, Copy, PartialEq, Eq, Structural)]
pub enum TriggerType {
    Cli,
    Kubernetes,
    Terraform,
    GithubAction,
    CircleCiOrb,
}

impl TriggerType {
    /// The word that stands for the trigger on the wire.
    pub open spec fn text(self) -> Seq<char> {
        match self {
            TriggerType::Cli => "CLI"@,
            TriggerType::Kubernetes => "KUBERNETES"@,
            TriggerType::Terraform => "TERRAFORM"@,
            TriggerType::GithubAction => "GITHUB_ACTION"@,
            TriggerType::CircleCiOrb => "CIRCLECI_ORB"@,
        }
    }

    /// The trigger that a word stands for, if it stands for one.
    pub open spec fn from_text(text: Seq<char>) -> Option<TriggerType> {
        if text == "CLI"@ {
            Some(TriggerType::Cli)
        } else if text == "KUBERNETES"@ {
            Some(TriggerType::Kubernetes)
        } else if text == "TERRAFORM"@ {
            Some(TriggerType::Terraform)
        } else if text == "GITHUB_ACTION"@ {
            Some(TriggerType::GithubAction)
        } else if text == "CIRCLECI_ORB"@ {
            Some(TriggerType::CircleCiOrb)
        } else {
            None
        }
    }

    /// The word that stands for the trigger on the wire.
    pub fn as_str(&self) -> (r: &'static str)
        ensures
            r@ == self.text(),
    {
        match self {
            TriggerType::Cli => "CLI",
            TriggerType::Kubernetes => "KUBERNETES",
            TriggerType::Terraform => "TERRAFORM",
            TriggerType::GithubAction => "GITHUB_ACTION",
            TriggerType::CircleCiOrb => "CIRCLECI_ORB",
        }
    }

    /// Reads a trigger from its word; any other text is refused.
    pub fn parse(text: &str) -> (r: Option<TriggerType>)
        ensures
            r == TriggerType::from_text(text@),
    {
        if same_text(text, "CLI") {
            Some(TriggerType::Cli)
        } else if same_text(text, "KUBERNETES") {
            Some(TriggerType::Kubernetes)
        } else if same_text(text, "TERRAFORM") {
            Some(TriggerType::Terraform)
        } else if same_text(text, "GITHUB_ACTION") {
            Some(TriggerType::GithubAction)
        } else if same_text(text, "CIRCLECI_ORB") {
            Some(TriggerType::CircleCiOrb)
        } else {
            None
        }
    }

    /// Reading the word of a trigger gives the trigger back, and a text that
    /// is read as a trigger is that trigger's word.
    pub proof fn lemma_text_round_trip(trigger: TriggerType, text: Seq<char>)
        ensures
            TriggerType::from_text(trigger.text()) == Some(trigger),
            TriggerType::from_text(text) == Some(trigger) ==> text == trigger.text(),
    {
        reveal_strlit("CLI");
        reveal_strlit("KUBERNETES");
        reveal_strlit("TERRAFORM");
        reveal_strlit("GITHUB_ACTION");
        reveal_strlit("CIRCLECI_ORB");
        assert("CLI"@.len() == 3);
        assert("KUBERNETES"@.len() == 10);
        assert("TERRAFORM"@.len() == 9);
        assert("GITHUB_ACTION"@.len() == 13);
        assert("CIRCLECI_ORB"@.len() == 12);
    }
}

/// The order in which pending migration files are applied.
#[derive(Debug, Clone, Copy, PartialEq, Eq, Structural)]
pub enum MigrateExecOrder {
    Linear,
    LinearSkip,
    NonLinear,
}

impl MigrateExecOrder {
    /// The value of `--exec-order` that stands for the order.
    pub open spec fn text(self) -> Seq<char> {
        match self {
            MigrateExecOrder::Linear => "linear"@,
            MigrateExecOrder::LinearSkip => "linear-skip"@,
            MigrateExecOrder::NonLinear => "non-linear"@,
        }
    }

    /// The order that a word stands for, if it stands for one.
    pub open spec fn from_text(text: Seq<char>) -> Option<MigrateExecOrder> {
        if text == "linear"@ {
            Some(MigrateExecOrder::Linear)
        } else if text == "linear-skip"@ {
            Some(MigrateExecOrder::LinearSkip)
        } else if text == "non-linear"@ {
            Some(MigrateExecOrder::NonLinear)
        } else {
            None
        }
    }

    /// The value of `--exec-order` that stands for the order.
    pub fn as_str(&self) -> (r: &'static str)
        ensures
            r@ == self.text(),
    {
        match self {
            MigrateExecOrder::Linear => "linear",
            MigrateExecOrder::LinearSkip => "linear-skip",
            MigrateExecOrder::NonLinear => "non-linear",
        }
    }

    /// Reads an order from its word; any other text is refused.
    pub fn parse(text: &str) -> (r: Option<MigrateExecOrder>)
        ensures
            r == MigrateExecOrder::from_text(text@),
    {
        if same_text(text, "linear") {
            Some(MigrateExecOrder::Linear)
        } else if same_text(text, "linear-skip") {
            Some(MigrateExecOrder::LinearSkip)
        } else if same_text(text, "non-linear") {
            Some(MigrateExecOrder::NonLinear)
        } else {
            None
        }
    }

    /// Reading the word of an order gives the order back, and a text that is
    /// read as an order is that order's word.
    pub proof fn lemma_text_round_trip(order: MigrateExecOrder, text: Seq<char>)
        ensures
            MigrateExecOrder::from_text(order.text()) == Some(order),
            MigrateExecOrder::from_text(text) == Some(order) ==> text == order.text(),
    {
        reveal_strlit("linear");
        reveal_strlit("linear-skip");
        reveal_strlit("non-linear");
        assert("linear"@.len() == 6);
        assert("linear-skip"@.len() == 11);
        assert("non-linear"@.len() == 10);
    }
}

/// The context of an apply or a down: what triggered it, and in which
/// version.
#[derive(Debug)]
pub struct DeployRunContext {
    pub trigger_type: TriggerType,
    pub trigger_version: String,
}

/// A `DeployRunContext` with its texts and lists as sequences.
pub ghost struct DeployRunContextView {
    pub trigger_type: TriggerType,
    pub trigger_version: Seq<char>,
}

impl View for DeployRunContext {
    type V = DeployRunContextView;

    open spec fn view(&self) -> DeployRunContextView {
        DeployRunContextView {
            trigger_type: self.trigger_type,
            trigger_version: self.trigger_version@,
        }
    }
}

impl DeepView for DeployRunContext {
    type V = DeployRunContextView;

    open spec fn deep_view(&self) -> DeployRunContextView {
        self@
    }
}

/// The JSON object that stands for a deploy run context: its two members in
/// the order of the fields, without blanks.
pub open spec fn deploy_context_json(c: DeployRunContextView) -> Seq<char> {
    "{\"trigger_type\":"@ + json_string_literal(c.trigger_type.text()) + ",\"trigger_version\":"@
        + json_string_literal(c.trigger_version) + "}"@
}

impl DeployRunContext {
    /// Writes the context as one JSON object.
    pub fn to_json(&self) -> (r: String)
        ensures
            r@ == deploy_context_json(self@),
    {
        let mut out = "{\"trigger_type\":".to_string();
        out.append(json_quote(self.trigger_type.as_str()).as_str());
        out.append(",\"trigger_version\":");
        out.append(json_quote(self.trigger_version.as_str()).as_str());
        out.append("}");
        out
    }
}

/// The context of a push: where the migration directory comes from.
#[derive(Debug)]
pub struct RunContext {
    pub repo: String,
    pub path: String,
    pub branch: String,
    pub commit: String,
    pub url: String,
    pub username: String,
    pub user_id: String,
    pub scm_type: String,
}

/// A `RunContext` with its texts and lists as sequences.
pub ghost struct RunContextView {
    pub repo: Seq<char>,
    pub path: Seq<char>,
    pub branch: Seq<char>,
    pub commit: Seq<char>,
    pub url: Seq<char>,
    pub username: Seq<char>,
    pub user_id: Seq<char>,
    pub scm_type: Seq<char>,
}

impl View for RunContext {
    type V = RunContextView;

    open spec fn view(&self) -> RunContextView {
        RunContextView {
            repo: self.repo@,
            path: self.path@,
            branch: self.branch@,
            commit: self.commit@,
            url: self.url@,
            username: self.username@,
            user_id: self.user_id@,
            scm_type: self.scm_type@,
        }
    }
}

impl DeepView for RunContext {
    type V = RunContextView;

    open spec fn deep_view(&self) -> RunContextView {
        self@
    }
}

/// The JSON object that stands for a run context: its eight members in the
/// order of the fields, named in camel case, without blanks.
pub open spec fn run_context_json(c: RunContextView) -> Seq<char> {
    "{\"repo\":"@ + json_string_literal(c.repo) + ",\"path\":"@ + json_string_literal(c.path)
        + ",\"branch\":"@ + json_string_literal(c.branch) + ",\"commit\":"@ + json_string_literal(
        c.commit,
    ) + ",\"url\":"@ + json_string_literal(c.url) + ",\"username\":"@ + json_string_literal(
        c.username,
    ) + ",\"userID\":"@ + json_string_literal(c.user_id) + ",\"scmType\":"@ + json_string_literal(
        c.scm_type,
    ) + "}"@
}

impl RunContext {
    /// Writes the context as one JSON object.
    pub fn to_json(&self) -> (r: String)
        ensures
            r@ == run_context_json(self@),
    {
        let mut out = "{\"repo\":".to_string();
        out.append(json_quote(self.repo.as_str()).as_str());
        out.append(",\"path\":");
        out.append(json_quote(self.path.as_str()).as_str());
        out.append(",\"branch\":");
        out.append(json_quote(self.branch.as_str()).as_str());
        out.append(",\"commit\":");
        out.append(json_quote(self.commit.as_str()).as_str());
        out.append(",\"url\":");
        out.append(json_quote(self.url.as_str()).as_str());
        out.append(",\"username\":");
        out.append(json_quote(self.username.as_str()).as_str());
        out.append(",\"userID\":");
        out.append(json_quote(self.user_id.as_str()).as_str());
        out.append(",\"scmType\":");
        out.append(json_quote(self.scm_type.as_str()).as_str());
        out.append("}");
        out
    }
}

} // verus!
