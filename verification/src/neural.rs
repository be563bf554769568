//! Records of the local-inference subsystem: server settings, pipeline
//! stages and events, task kinds and their prompts, memory categories and
//! the shapes of the chat-completion compatibility layer.
use vstd::prelude::*;
use crate::text::same_text;
use crate::keyed::{first_match, find_key, lemma_first_match_update, lemma_first_match_push};

verus! {

/// Settings of one chat server in the pool.
#[derive(Clone, Debug)]
pub struct OllamaServerConfig {
    pub name: String,
    pub base_url: String,
    pub weight: u32,
    pub models: Vec<String>,
    pub enabled: bool,
}

impl OllamaServerConfig {
    /// The local server on the standard port, weight 1, enabled.
    pub fn default_local() -> (r: Self)
        ensures
            r.name@ == "local-ollama"@,
            r.base_url@ == "http://localhost:11434"@,
            r.weight == 1,
            r.models@.len() == 0,
            r.enabled,
    {
        OllamaServerConfig {
            name: String::from_str("local-ollama"),
            base_url: String::from_str("http://localhost:11434"),
            weight: 1,
            models: Vec::new(),
            enabled: true,
        }
    }
}

/// Stage in the delegation pipeline.
#[derive(Clone, Copy, Debug, PartialEq, Eq, Structural)]
pub enum PipelineStage {
    Classify,
    Route,
    Think,
    Synthesize,
    Delegate,
}

pub open spec fn stage_name(s: PipelineStage) -> Seq<char> {
    match s {
        PipelineStage::Classify => "classify"@,
        PipelineStage::Route => "route"@,
        PipelineStage::Think => "think"@,
        PipelineStage::Synthesize => "synthesize"@,
        PipelineStage::Delegate => "delegate"@,
    }
}

impl PipelineStage {
    /// The stage's lower-case name.
    pub fn name(&self) -> (r: &'static str)
        ensures
            r@ == stage_name(*self),
    {
        match self {
            PipelineStage::Classify => "classify",
            PipelineStage::Route => "route",
            PipelineStage::Think => "think",
            PipelineStage::Synthesize => "synthesize",
            PipelineStage::Delegate => "delegate",
        }
    }
}

/// Progress of one pipeline event.
#[derive(Clone, Copy, Debug, PartialEq, Eq, Structural)]
pub enum ThinkingStatus {
    Queued,
    Running,
    Completed,
    Failed,
}

/// A traced event of the pipeline.
#[derive(Clone, Debug)]
pub struct ThinkingEvent {
    pub id: String,
    pub stage: PipelineStage,
    pub model: String,
    pub endpoint: String,
    pub timestamp_ms: i64,
    pub duration_ms: Option<u64>,
    pub input_tokens: Option<u32>,
    pub output_tokens: Option<u32>,
    pub status: ThinkingStatus,
    pub branch_index: u32,
    pub branch_total: u32,
}

/// Kinds of request the pipeline handles.
#[derive(Clone, Copy, Debug, PartialEq, Eq, Structural)]
pub enum TaskType {
    RegimeAnalysis,
    SignalEvaluation,
    RiskAssessment,
    PortfolioAdvice,
    TradeReview,
    MarketCommentary,
    ParameterTuning,
}

pub open spec fn task_name(t: TaskType) -> Seq<char> {
    match t {
        TaskType::RegimeAnalysis => "regime_analysis"@,
        TaskType::SignalEvaluation => "signal_evaluation"@,
        TaskType::RiskAssessment => "risk_assessment"@,
        TaskType::PortfolioAdvice => "portfolio_advice"@,
        TaskType::TradeReview => "trade_review"@,
        TaskType::MarketCommentary => "market_commentary"@,
        TaskType::ParameterTuning => "parameter_tuning"@,
    }
}

/// The task named `s`; any other text is market commentary.
pub open spec fn task_from_name(s: Seq<char>) -> TaskType {
    if s == "regime_analysis"@ {
        TaskType::RegimeAnalysis
    } else if s == "signal_evaluation"@ {
        TaskType::SignalEvaluation
    } else if s == "risk_assessment"@ {
        TaskType::RiskAssessment
    } else if s == "portfolio_advice"@ {
        TaskType::PortfolioAdvice
    } else if s == "trade_review"@ {
        TaskType::TradeReview
    } else if s == "parameter_tuning"@ {
        TaskType::ParameterTuning
    } else {
        TaskType::MarketCommentary
    }
}

impl TaskType {
    /// The task's snake-case name.
    pub fn name(&self) -> (r: &'static str)
        ensures
            r@ == task_name(*self),
    {
        match self {
            TaskType::RegimeAnalysis => "regime_analysis",
            TaskType::SignalEvaluation => "signal_evaluation",
            TaskType::RiskAssessment => "risk_assessment",
            TaskType::PortfolioAdvice => "portfolio_advice",
            TaskType::TradeReview => "trade_review",
            TaskType::MarketCommentary => "market_commentary",
            TaskType::ParameterTuning => "parameter_tuning",
        }
    }

    /// The task a classifier named; unknown names fall back to market
    /// commentary.
    pub fn from_name(s: &str) -> (r: TaskType)
        ensures
            r == task_from_name(s@),
    {
        if same_text(s, "regime_analysis") {
            TaskType::RegimeAnalysis
        } else if same_text(s, "signal_evaluation") {
            TaskType::SignalEvaluation
        } else if same_text(s, "risk_assessment") {
            TaskType::RiskAssessment
        } else if same_text(s, "portfolio_advice") {
            TaskType::PortfolioAdvice
        } else if same_text(s, "trade_review") {
            TaskType::TradeReview
        } else if same_text(s, "parameter_tuning") {
            TaskType::ParameterTuning
        } else {
            TaskType::MarketCommentary
        }
    }

    /// Whether the task's answers are requested as JSON.
    pub fn wants_json(&self) -> (r: bool)
        ensures
            r == (*self == TaskType::RegimeAnalysis || *self == TaskType::SignalEvaluation
                || *self == TaskType::RiskAssessment),
    {
        match self {
            TaskType::RegimeAnalysis | TaskType::SignalEvaluation | TaskType::RiskAssessment => true,
            _ => false,
        }
    }
}

/// A task's name read back gives the task.
pub proof fn law_task_name_round_trip(t: TaskType)
    ensures
        task_from_name(task_name(t)) == t,
{
    reveal_strlit("regime_analysis");
    reveal_strlit("signal_evaluation");
    reveal_strlit("risk_assessment");
    reveal_strlit("portfolio_advice");
    reveal_strlit("trade_review");
    reveal_strlit("market_commentary");
    reveal_strlit("parameter_tuning");
    assert("regime_analysis"@.len() == 15 && "risk_assessment"@.len() == 15);
    assert("signal_evaluation"@.len() == 17 && "market_commentary"@.len() == 17);
    assert("portfolio_advice"@.len() == 16 && "parameter_tuning"@.len() == 16);
    assert("trade_review"@.len() == 12);
    assert("regime_analysis"@[1] != "risk_assessment"@[1]);
    assert("signal_evaluation"@[0] != "market_commentary"@[0]);
    assert("portfolio_advice"@[1] != "parameter_tuning"@[1]);
}

/// Models, servers and system prompts chosen for each branch.
#[derive(Clone, Debug)]
pub struct RouteDecision {
    pub branch_models: Vec<String>,
    pub branch_servers: Vec<Option<String>>,
    pub branch_prompts: Vec<String>,
}

/// The system prompt specialised for a task.
pub open spec fn task_prompt(t: TaskType) -> Seq<char> {
    match t {
        TaskType::RegimeAnalysis => "You are a quantitative market regime analyst. Classify market conditions precisely. Consider trend, volatility, momentum, and structural factors."@,
        TaskType::SignalEvaluation => "You are a trading signal evaluator. Assess signal quality, conviction, and timing. Consider false positive risk and current market regime."@,
        TaskType::RiskAssessment => "You are a risk analyst. Evaluate portfolio risk, concentration, correlation, and tail risk scenarios. Be conservative."@,
        TaskType::PortfolioAdvice => "You are a portfolio strategist. Advise on position sizing, rebalancing, and capital allocation across strategies."@,
        TaskType::TradeReview => "You are a trade evaluator. Analyze completed trades for lessons learned. Identify what worked, what didn't, and actionable improvements."@,
        TaskType::ParameterTuning => "You are a strategy optimization expert. Suggest parameter adjustments based on recent performance data. Avoid overfitting."@,
        TaskType::MarketCommentary => "You are a market analyst. Provide clear, data-driven market analysis with actionable insights for algorithmic trading."@,
    }
}

impl TaskType {
    /// The system prompt specialised for the task.
    pub fn system_prompt(&self) -> (r: &'static str)
        ensures
            r@ == task_prompt(*self),
    {
        match self {
            TaskType::RegimeAnalysis => "You are a quantitative market regime analyst. Classify market conditions precisely. Consider trend, volatility, momentum, and structural factors.",
            TaskType::SignalEvaluation => "You are a trading signal evaluator. Assess signal quality, conviction, and timing. Consider false positive risk and current market regime.",
            TaskType::RiskAssessment => "You are a risk analyst. Evaluate portfolio risk, concentration, correlation, and tail risk scenarios. Be conservative.",
            TaskType::PortfolioAdvice => "You are a portfolio strategist. Advise on position sizing, rebalancing, and capital allocation across strategies.",
            TaskType::TradeReview => "You are a trade evaluator. Analyze completed trades for lessons learned. Identify what worked, what didn't, and actionable improvements.",
            TaskType::ParameterTuning => "You are a strategy optimization expert. Suggest parameter adjustments based on recent performance data. Avoid overfitting.",
            TaskType::MarketCommentary => "You are a market analyst. Provide clear, data-driven market analysis with actionable insights for algorithmic trading.",
        }
    }
}

/// The prompt of branch `i` of `count`: the base prompt alone for a single
/// branch; otherwise the bullish, bearish and then neutral perspective.
pub open spec fn branch_prompt_spec(base: Seq<char>, i: int, count: int) -> Seq<char> {
    if count == 1 {
        base
    } else if i == 0 {
        base + " Focus on the BULLISH case and upside scenarios."@
    } else if i == 1 {
        base + " Focus on the BEARISH case and downside risks."@
    } else {
        base + " Take a NEUTRAL, balanced perspective weighing both sides."@
    }
}

fn branch_prompt(base: &str, i: usize, count: usize) -> (r: String)
    ensures
        r@ == branch_prompt_spec(base@, i as int, count as int),
{
    let mut s = String::from_str(base);
    if count == 1 {
        return s;
    }
    if i == 0 {
        s.append(" Focus on the BULLISH case and upside scenarios.");
    } else if i == 1 {
        s.append(" Focus on the BEARISH case and downside risks.");
    } else {
        s.append(" Take a NEUTRAL, balanced perspective weighing both sides.");
    }
    s
}

/// The branches of a request: the reasoning model for each, the servers
/// taken round-robin from `rotation_start` (none when no server has the
/// model), and the task's prompt in each branch's perspective.
pub fn route_decision(
    task: TaskType,
    branch_count: usize,
    reasoning_model: &String,
    servers: &Vec<String>,
    rotation_start: usize,
) -> (r: RouteDecision)
    requires
        rotation_start + branch_count <= usize::MAX,
    ensures
        r.branch_models@.len() == branch_count,
        r.branch_servers@.len() == branch_count,
        r.branch_prompts@.len() == branch_count,
        forall|i: int| 0 <= i < branch_count ==> (#[trigger] r.branch_models@[i])@ == reasoning_model@,
        forall|i: int|
            0 <= i < branch_count ==> (#[trigger] r.branch_prompts@[i])@ == branch_prompt_spec(
                task_prompt(task),
                i,
                branch_count as int,
            ),
        forall|i: int|
            0 <= i < branch_count ==> match #[trigger] r.branch_servers@[i] {
                None => servers@.len() == 0,
                Some(s) => servers@.len() > 0 && s@ == servers@[(rotation_start + i) % (servers@.len() as int)]@,
            },
{
    let base = task.system_prompt();
    let mut models: Vec<String> = Vec::new();
    let mut chosen: Vec<Option<String>> = Vec::new();
    let mut prompts: Vec<String> = Vec::new();
    let mut i: usize = 0;
    while i < branch_count
        invariant
            i <= branch_count,
            rotation_start + branch_count <= usize::MAX,
            base@ == task_prompt(task),
            models@.len() == i,
            chosen@.len() == i,
            prompts@.len() == i,
            forall|j: int| 0 <= j < i ==> (#[trigger] models@[j])@ == reasoning_model@,
            forall|j: int|
                0 <= j < i ==> (#[trigger] prompts@[j])@ == branch_prompt_spec(
                    task_prompt(task),
                    j,
                    branch_count as int,
                ),
            forall|j: int|
                0 <= j < i ==> match #[trigger] chosen@[j] {
                    None => servers@.len() == 0,
                    Some(s) => servers@.len() > 0 && s@ == servers@[(rotation_start + j) % (
                    servers@.len() as int)]@,
                },
        decreases branch_count - i,
    {
        models.push(reasoning_model.clone());
        prompts.push(branch_prompt(base, i, branch_count));
        if servers.len() == 0 {
            chosen.push(None);
        } else {
            let k = (rotation_start + i) % servers.len();
            chosen.push(Some(servers[k].clone()));
        }
        i = i + 1;
    }
    RouteDecision { branch_models: models, branch_servers: chosen, branch_prompts: prompts }
}

/// The number of branches a classification asks for: the requested count
/// (one by default) up to three under collective thinking, else one.
pub fn classified_branch_count(collective_thinking: bool, requested: Option<u64>) -> (r: u32)
    ensures
        r == (if collective_thinking {
            match requested {
                Some(n) => if n < 3 {
                    n as u32
                } else {
                    3
                },
                None => 1,
            }
        } else {
            1
        }),
{
    if !collective_thinking {
        return 1;
    }
    match requested {
        Some(n) => if n < 3 {
            n as u32
        } else {
            3
        },
        None => 1,
    }
}

/// Health of one server in the pool.
#[derive(Clone, Debug)]
pub struct ServerHealth {
    pub name: String,
    pub base_url: String,
    pub is_healthy: bool,
    pub last_check_ms: i64,
    pub latency_ms: Option<u64>,
    pub available_models: Vec<String>,
    pub consecutive_failures: u32,
}

/// Category of a stored memory.
#[derive(Clone, Copy, Debug, PartialEq, Eq, Structural)]
pub enum MemoryCategory {
    TradeOutcome,
    RegimePattern,
    StrategyPerformance,
    LessonLearned,
    ParameterTuning,
    MarketInsight,
    RiskEvent,
}

pub open spec fn category_name(c: MemoryCategory) -> Seq<char> {
    match c {
        MemoryCategory::TradeOutcome => "trade_outcome"@,
        MemoryCategory::RegimePattern => "regime_pattern"@,
        MemoryCategory::StrategyPerformance => "strategy_performance"@,
        MemoryCategory::LessonLearned => "lesson_learned"@,
        MemoryCategory::ParameterTuning => "parameter_tuning"@,
        MemoryCategory::MarketInsight => "market_insight"@,
        MemoryCategory::RiskEvent => "risk_event"@,
    }
}

/// The category named `s`; any other text is a market insight.
pub open spec fn category_from_name(s: Seq<char>) -> MemoryCategory {
    if s == "trade_outcome"@ {
        MemoryCategory::TradeOutcome
    } else if s == "regime_pattern"@ {
        MemoryCategory::RegimePattern
    } else if s == "strategy_performance"@ {
        MemoryCategory::StrategyPerformance
    } else if s == "lesson_learned"@ {
        MemoryCategory::LessonLearned
    } else if s == "parameter_tuning"@ {
        MemoryCategory::ParameterTuning
    } else if s == "risk_event"@ {
        MemoryCategory::RiskEvent
    } else {
        MemoryCategory::MarketInsight
    }
}

impl MemoryCategory {
    /// The name under which the category is stored.
    pub fn as_str(&self) -> (r: &'static str)
        ensures
            r@ == category_name(*self),
    {
        match self {
            MemoryCategory::TradeOutcome => "trade_outcome",
            MemoryCategory::RegimePattern => "regime_pattern",
            MemoryCategory::StrategyPerformance => "strategy_performance",
            MemoryCategory::LessonLearned => "lesson_learned",
            MemoryCategory::ParameterTuning => "parameter_tuning",
            MemoryCategory::MarketInsight => "market_insight",
            MemoryCategory::RiskEvent => "risk_event",
        }
    }

    /// The category stored under `s`; unknown names read as market insight.
    pub fn from_name(s: &str) -> (r: MemoryCategory)
        ensures
            r == category_from_name(s@),
    {
        if same_text(s, "trade_outcome") {
            MemoryCategory::TradeOutcome
        } else if same_text(s, "regime_pattern") {
            MemoryCategory::RegimePattern
        } else if same_text(s, "strategy_performance") {
            MemoryCategory::StrategyPerformance
        } else if same_text(s, "lesson_learned") {
            MemoryCategory::LessonLearned
        } else if same_text(s, "parameter_tuning") {
            MemoryCategory::ParameterTuning
        } else if same_text(s, "risk_event") {
            MemoryCategory::RiskEvent
        } else {
            MemoryCategory::MarketInsight
        }
    }
}

/// A category stored by its name is read back as the same category.
pub proof fn law_category_name_round_trip(c: MemoryCategory)
    ensures
        category_from_name(category_name(c)) == c,
{
    reveal_strlit("trade_outcome");
    reveal_strlit("regime_pattern");
    reveal_strlit("strategy_performance");
    reveal_strlit("lesson_learned");
    reveal_strlit("parameter_tuning");
    reveal_strlit("market_insight");
    reveal_strlit("risk_event");
    assert("trade_outcome"@.len() == 13 && "strategy_performance"@.len() == 20);
    assert("regime_pattern"@.len() == 14 && "lesson_learned"@.len() == 14);
    assert("market_insight"@.len() == 14 && "parameter_tuning"@.len() == 16);
    assert("risk_event"@.len() == 10);
    assert("regime_pattern"@[0] != "lesson_learned"@[0]);
    assert("regime_pattern"@[0] != "market_insight"@[0]);
    assert("lesson_learned"@[0] != "market_insight"@[0]);
}

/// Direction of a collective vote.
#[derive(Clone, Copy, Debug, PartialEq, Eq, Structural)]
pub enum TradeDirection {
    Long,
    Short,
    Hold,
}

pub open spec fn direction_label(d: TradeDirection) -> Seq<char> {
    match d {
        TradeDirection::Long => "long"@,
        TradeDirection::Short => "short"@,
        TradeDirection::Hold => "hold"@,
    }
}

impl TradeDirection {
    /// The direction's lower-case name.
    pub fn name(&self) -> (r: &'static str)
        ensures
            r@ == direction_label(*self),
    {
        match self {
            TradeDirection::Long => "long",
            TradeDirection::Short => "short",
            TradeDirection::Hold => "hold",
        }
    }
}

/// A voter of the collective: one model on one server.
#[derive(Clone, Debug)]
pub struct ServerModel {
    pub server: String,
    pub model: String,
}

/// One message of a chat-completion compatible request.
#[derive(Clone, Debug)]
pub struct OpenAiMessage {
    pub role: String,
    pub content: String,
}

/// Requested response format (`"json_object"` asks for JSON).
#[derive(Clone, Debug)]
pub struct ResponseFormat {
    pub format_type: String,
}

/// The message of one choice.
#[derive(Clone, Debug)]
pub struct OpenAiResponseMessage {
    pub role: String,
    pub content: String,
}

/// One choice of a chat-completion compatible response.
#[derive(Clone, Debug)]
pub struct OpenAiChoice {
    pub index: u32,
    pub message: OpenAiResponseMessage,
    pub finish_reason: String,
}

/// Token counts of a chat-completion compatible response.
#[derive(Clone, Debug)]
pub struct OpenAiUsage {
    pub prompt_tokens: u32,
    pub completion_tokens: u32,
    pub total_tokens: u32,
}

/// A chat-completion compatible response.
#[derive(Clone, Debug)]
pub struct OpenAiChatResponse {
    pub id: String,
    pub object: String,
    pub created: i64,
    pub model: String,
    pub choices: Vec<OpenAiChoice>,
    pub usage: OpenAiUsage,
}

/// Whether the requested response format asks for JSON.
pub open spec fn json_requested(format: Option<ResponseFormat>) -> bool {
    match format {
        Some(f) => f.format_type@ == "json_object"@,
        None => false,
    }
}

/// Whether a chat-completion request asks for a JSON response.
pub fn wants_json_response(format: &Option<ResponseFormat>) -> (r: bool)
    ensures
        r == json_requested(*format),
{
    match format {
        Some(f) => same_text(f.format_type.as_str(), "json_object"),
        None => false,
    }
}

/// The chat-completion compatible response carrying one assistant answer
/// with the given token counts.
pub fn completion_response(
    id: String,
    created: i64,
    model: String,
    content: String,
    prompt_tokens: u32,
    completion_tokens: u32,
) -> (r: OpenAiChatResponse)
    requires
        prompt_tokens + completion_tokens <= u32::MAX,
    ensures
        r.id == id,
        r.object@ == "chat.completion"@,
        r.created == created,
        r.model == model,
        r.choices@.len() == 1,
        r.choices@[0].index == 0,
        r.choices@[0].message.role@ == "assistant"@,
        r.choices@[0].message.content == content,
        r.choices@[0].finish_reason@ == "stop"@,
        r.usage.prompt_tokens == prompt_tokens,
        r.usage.completion_tokens == completion_tokens,
        r.usage.total_tokens == prompt_tokens + completion_tokens,
{
    let mut choices: Vec<OpenAiChoice> = Vec::new();
    choices.push(
        OpenAiChoice {
            index: 0,
            message: OpenAiResponseMessage { role: String::from_str("assistant"), content },
            finish_reason: String::from_str("stop"),
        },
    );
    OpenAiChatResponse {
        id,
        object: String::from_str("chat.completion"),
        created,
        model,
        choices,
        usage: OpenAiUsage {
            prompt_tokens,
            completion_tokens,
            total_tokens: prompt_tokens + completion_tokens,
        },
    }
}

/// Model-name aliases of the chat-completion layer: a requested model name
/// is routed to the local model it stands for.
pub struct ModelAliases {
    aliases: Vec<(String, String)>,
}

impl ModelAliases {
    /// The model that `name` is routed to by an alias.
    pub closed spec fn alias_of(&self, name: Seq<char>) -> Option<Seq<char>> {
        match first_match(self.aliases@, name) {
            Some(t) => Some(t@),
            None => None,
        }
    }

    /// No aliases.
    pub fn new() -> (r: Self)
        ensures
            forall|k: Seq<char>| #[trigger] r.alias_of(k) is None,
    {
        ModelAliases { aliases: Vec::new() }
    }

    /// Routes `from` to `to`, replacing an alias of `from`.
    pub fn add_alias(&mut self, from: &str, to: &str)
        ensures
            forall|k: Seq<char>| #[trigger] final(self).alias_of(k) == if k == from@ {
                Some(to@)
            } else {
                old(self).alias_of(k)
            },
    {
        let key = String::from_str(from);
        let target = String::from_str(to);
        let found = find_key(&self.aliases, from);
        let ghost before = self.aliases@;
        match found {
            Some(i) => {
                self.aliases.set(i, (key, target));
                proof {
                    lemma_first_match_update(before, from@, i as int, (key, target));
                }
            },
            None => {
                self.aliases.push((key, target));
                proof {
                    lemma_first_match_push(before, (key, target));
                }
            },
        }
    }

    /// The model to run for `requested`: its alias, or the name itself.
    pub fn resolve_model(&self, requested: &str) -> (r: String)
        ensures
            r@ == match self.alias_of(requested@) {
                Some(t) => t,
                None => requested@,
            },
    {
        match find_key(&self.aliases, requested) {
            Some(i) => self.aliases[i].1.clone(),
            None => String::from_str(requested),
        }
    }
}

} // verus!
