//! The social-media agent: reads a request, answers it with a fixed text per
//! intent, proposes follow-ups and remembers both sides of the exchange.

use vstd::prelude::*;
use crate::agent::analysis::{
    content_type_named, explicit_or, intent_of, opt_view, platform_named, sentiment_of, urgency_of,
    ActionMetadata, AgentAction, AgentRequest, AgentResponse, Intent, RequestAnalysis, Sentiment, Urgency,
};
use crate::agent::context::AgentContext;
use crate::agent::memory::{stored, MemoryManager};
use crate::text::{contains_text, copy_opt, seq_contains, to_lowercase, unicode_lowercase, views};

verus! {

broadcast use vstd::string::group_string_axioms;

pub const GENERATE_HEAD: &'static str = "I'll help you generate ";
pub const GENERATE_MIDDLE: &'static str = " content for ";
pub const GENERATE_TAIL: &'static str = ". Let me create something engaging and platform-appropriate for you.";
pub const POST_HEAD: &'static str = "I'll help you post content to ";
pub const POST_TAIL: &'static str = ". First, let me generate the content and then we can publish it.";
pub const CONFIGURE_HEAD: &'static str = "I'll help you configure ";
pub const CONFIGURE_TAIL: &'static str = ". Please provide your API credentials and I'll set up the connection for you.";
pub const HELP_TEXT: &'static str = "I'm your AI social media assistant! I can help you:\n\n• Generate content for LinkedIn, Twitter, Facebook, Instagram, and emails\n• Post content to your social media platforms\n• Configure API connections\n• Provide content suggestions\n\nWhat would you like me to help you with today?";
pub const CHAT_TEXT: &'static str = "I understand you'd like to chat! I'm here to help with your social media content needs. How can I assist you today?";

/// The value, or `d` when there is none.
pub open spec fn or_default(o: Option<Seq<char>>, d: Seq<char>) -> Seq<char> {
    match o {
        Some(v) => v,
        None => d,
    }
}

/// The reply to a request of this intent, platform and content type.
pub open spec fn response_text(intent: Intent, platform: Option<Seq<char>>, content_type: Option<Seq<char>>) -> Seq<char> {
    match intent {
        Intent::GenerateContent => GENERATE_HEAD@ + or_default(content_type, "post"@) + GENERATE_MIDDLE@
            + or_default(platform, "general"@) + GENERATE_TAIL@,
        Intent::PostContent => POST_HEAD@ + or_default(platform, "your chosen platform"@) + POST_TAIL@,
        Intent::ConfigurePlatform => CONFIGURE_HEAD@ + or_default(platform, "social media platform"@) + CONFIGURE_TAIL@,
        Intent::Help => HELP_TEXT@,
        Intent::GeneralChat => CHAT_TEXT@,
    }
}

/// The four follow-ups offered for an intent.
pub open spec fn suggestions_for(intent: Intent) -> Seq<Seq<char>> {
    match intent {
        Intent::GenerateContent => seq![
            "Generate LinkedIn post"@,
            "Create Twitter thread"@,
            "Write Instagram caption"@,
            "Compose email"@,
        ],
        Intent::PostContent => seq![
            "Post to LinkedIn"@,
            "Share on Twitter"@,
            "Publish on Facebook"@,
            "Upload to Instagram"@,
        ],
        Intent::ConfigurePlatform => seq![
            "Configure LinkedIn API"@,
            "Setup Twitter API"@,
            "Connect Facebook API"@,
            "Link Instagram API"@,
        ],
        _ => seq!["Generate content"@, "Post to social media"@, "Configure platforms"@, "Get help"@],
    }
}

/// Every reply offers four suggestions, whatever the intent.
pub proof fn lemma_four_suggestions(intent: Intent)
    ensures
        suggestions_for(intent).len() == 4,
{
}

/// What the agent reads in a request whose message, lower-cased, is `m`:
/// the words of `m` decide, an explicit platform or content type wins.
pub open spec fn reads_lowered(a: RequestAnalysis, m: Seq<char>, request: AgentRequest) -> bool {
    &&& a.intent == intent_of(m)
    &&& opt_view(a.platform) == explicit_or(request.platform, platform_named(m))
    &&& opt_view(a.content_type) == explicit_or(request.content_type, Some(content_type_named(m)))
    &&& a.urgency == urgency_of(m)
    &&& a.sentiment == sentiment_of(m)
}

/// What the agent reads in a request: its message is lower-cased first.
pub open spec fn reads_as(a: RequestAnalysis, request: AgentRequest) -> bool {
    reads_lowered(a, unicode_lowercase(request.message@), request)
}

/// The message asks to create content: it holds "generate", "create" or "write".
pub open spec fn asks_to_create(m: Seq<char>) -> bool {
    seq_contains(m, "generate"@) || seq_contains(m, "create"@) || seq_contains(m, "write"@)
}

/// The message asks to publish: it holds "post", "publish" or "share".
pub open spec fn asks_to_publish(m: Seq<char>) -> bool {
    seq_contains(m, "post"@) || seq_contains(m, "publish"@) || seq_contains(m, "share"@)
}

/// The message asks to set up a platform: it holds "configure", "setup" or "connect".
pub open spec fn asks_to_configure(m: Seq<char>) -> bool {
    seq_contains(m, "configure"@) || seq_contains(m, "setup"@) || seq_contains(m, "connect"@)
}

/// The message asks a question: it holds "help", "how" or "what".
pub open spec fn asks_a_question(m: Seq<char>) -> bool {
    seq_contains(m, "help"@) || seq_contains(m, "how"@) || seq_contains(m, "what"@)
}

/// The words of the lower-cased message decide its intent, the first kind
/// of request it makes winning: creating content, then publishing, then
/// setting up a platform, then asking for help ("help", "how", "what");
/// a message that makes none of these requests is chat.
pub proof fn lemma_intent_by_words(a: RequestAnalysis, m: Seq<char>, request: AgentRequest)
    requires
        reads_lowered(a, m, request),
    ensures
        asks_to_create(m) ==> a.intent == Intent::GenerateContent,
        !asks_to_create(m) && asks_to_publish(m) ==> a.intent == Intent::PostContent,
        !asks_to_create(m) && !asks_to_publish(m) && asks_to_configure(m) ==> a.intent
            == Intent::ConfigurePlatform,
        !asks_to_create(m) && !asks_to_publish(m) && !asks_to_configure(m) && asks_a_question(m)
            ==> a.intent == Intent::Help,
        !asks_to_create(m) && !asks_to_publish(m) && !asks_to_configure(m) && !asks_a_question(m)
            ==> a.intent == Intent::GeneralChat,
{
}

/// A question that asks for nothing else ("what can you do?") is answered
/// with the help text and the four general suggestions, whatever platform
/// or content type the request names.
pub proof fn lemma_question_gets_help(m: Seq<char>, platform: Option<Seq<char>>, content_type: Option<Seq<char>>)
    requires
        asks_a_question(m),
        !asks_to_create(m),
        !asks_to_publish(m),
        !asks_to_configure(m),
    ensures
        response_text(intent_of(m), platform, content_type) == HELP_TEXT@,
        suggestions_for(intent_of(m)) == seq![
            "Generate content"@,
            "Post to social media"@,
            "Configure platforms"@,
            "Get help"@,
        ],
{
}

/// The actions proposed: content generation on the platform, when one is
/// known, with the request's message as content.
pub open spec fn proposes(actions: Seq<AgentAction>, a: RequestAnalysis, request: AgentRequest) -> bool {
    match a.platform {
        Some(p) => {
            &&& actions.len() == 1
            &&& actions[0].action_type@ == "generate_content"@
            &&& actions[0].platform == Some(p)
            &&& actions[0].content == Some(request.message)
            &&& actions[0].metadata == ActionMetadata {
                content_type: a.content_type,
                urgency: a.urgency,
                sentiment: a.sentiment,
            }
        },
        None => actions.len() == 0,
    }
}

/// The agent: what it knows of its user, and what it remembers.
#[derive(Debug)]
pub struct SocioAgent {
    pub context: AgentContext,
    pub memory: MemoryManager,
}

impl SocioAgent {
    /// An agent with an empty context and no memory.
    pub fn new() -> (r: SocioAgent)
        ensures
            r.context.user_preferences@ == Map::<Seq<char>, String>::empty(),
            r.context.content_templates@ == Map::<Seq<char>, String>::empty(),
            r.context.platform_configs@.dom() == Set::<Seq<char>>::empty(),
            r.memory.sessions().dom() == Set::<Seq<char>>::empty(),
            r.memory.limit() == 100,
    {
        SocioAgent { context: AgentContext::new(), memory: MemoryManager::new() }
    }

    /// Answers a request: stores the user's message, replies, stores the
    /// reply, and offers suggestions and actions.
    pub fn process_request(&mut self, request: &AgentRequest) -> (r: AgentResponse)
        ensures
            ({
                let m = unicode_lowercase(request.message@);
                let intent = intent_of(m);
                let platform = explicit_or(request.platform, platform_named(m));
                let content_type = explicit_or(request.content_type, Some(content_type_named(m)));
                &&& r.response@ == response_text(intent, platform, content_type)
                &&& r.session_id == request.session_id
                &&& views(r.suggestions@) == suggestions_for(intent)
                &&& exists|a: RequestAnalysis| reads_as(a, *request) && proposes(r.actions@, a, *request)
            }),
            exists|mid: Map<Seq<char>, crate::agent::memory::SessionMemory>| {
                &&& stored(old(self).memory.sessions(), old(self).memory.limit(), request.session_id@, request.message@, "user"@, mid)
                &&& stored(mid, old(self).memory.limit(), request.session_id@, r.response@, "assistant"@, final(self).memory.sessions())
            },
            final(self).memory.limit() == old(self).memory.limit(),
            final(self).context == old(self).context,
    {
        self.memory.store_message(request.session_id.as_str(), request.message.as_str(), "user");
        let analysis = self.analyze_request(request);
        let response = self.generate_response(&analysis);
        self.memory.store_message(request.session_id.as_str(), response.as_str(), "assistant");
        let suggestions = self.generate_suggestions(&analysis);
        let actions = self.generate_actions(&analysis, request);
        AgentResponse { response, session_id: request.session_id.clone(), suggestions, actions }
    }

    /// Reads intent, platform, content type, urgency and sentiment from the
    /// lower-cased message.
    pub fn analyze_request(&self, request: &AgentRequest) -> (r: RequestAnalysis)
        ensures
            reads_as(r, *request),
    {
        let message = to_lowercase(request.message.as_str());
        self.analyze_lowered(message.as_str(), request)
    }

    /// Reads intent, platform, content type, urgency and sentiment from the
    /// already lower-cased message `message` of the request.
    pub fn analyze_lowered(&self, message: &str, request: &AgentRequest) -> (r: RequestAnalysis)
        ensures
            reads_lowered(r, message@, *request),
    {
        RequestAnalysis {
            intent: self.detect_intent(message),
            platform: self.extract_platform(message, &request.platform),
            content_type: self.extract_content_type(message, &request.content_type),
            urgency: self.detect_urgency(message),
            sentiment: self.detect_sentiment(message),
        }
    }

    fn detect_intent(&self, message: &str) -> (r: Intent)
        ensures
            r == intent_of(message@),
    {
        if contains_text(message, "generate") || contains_text(message, "create") || contains_text(message, "write") {
            Intent::GenerateContent
        } else if contains_text(message, "post") || contains_text(message, "publish") || contains_text(message, "share") {
            Intent::PostContent
        } else if contains_text(message, "configure") || contains_text(message, "setup") || contains_text(message, "connect") {
            Intent::ConfigurePlatform
        } else if contains_text(message, "help") || contains_text(message, "how") || contains_text(message, "what") {
            Intent::Help
        } else {
            Intent::GeneralChat
        }
    }

    fn extract_platform(&self, message: &str, explicit_platform: &Option<String>) -> (r: Option<String>)
        ensures
            opt_view(r) == explicit_or(*explicit_platform, platform_named(message@)),
    {
        if let Some(platform) = explicit_platform {
            return Some(platform.clone());
        }
        if contains_text(message, "linkedin") {
            Some(String::from_str("linkedin"))
        } else if contains_text(message, "twitter") {
            Some(String::from_str("twitter"))
        } else if contains_text(message, "facebook") {
            Some(String::from_str("facebook"))
        } else if contains_text(message, "instagram") {
            Some(String::from_str("instagram"))
        } else if contains_text(message, "email") {
            Some(String::from_str("email"))
        } else {
            None
        }
    }

    fn extract_content_type(&self, message: &str, explicit_type: &Option<String>) -> (r: Option<String>)
        ensures
            opt_view(r) == explicit_or(*explicit_type, Some(content_type_named(message@))),
    {
        if let Some(content_type) = explicit_type {
            return Some(content_type.clone());
        }
        if contains_text(message, "post") {
            Some(String::from_str("post"))
        } else if contains_text(message, "story") {
            Some(String::from_str("story"))
        } else if contains_text(message, "email") {
            Some(String::from_str("email"))
        } else if contains_text(message, "caption") {
            Some(String::from_str("caption"))
        } else {
            Some(String::from_str("post"))
        }
    }

    fn detect_urgency(&self, message: &str) -> (r: Urgency)
        ensures
            r == urgency_of(message@),
    {
        if contains_text(message, "urgent") || contains_text(message, "asap") || contains_text(message, "immediately") {
            Urgency::High
        } else if contains_text(message, "soon") || contains_text(message, "quickly") {
            Urgency::Medium
        } else {
            Urgency::Low
        }
    }

    fn detect_sentiment(&self, message: &str) -> (r: Sentiment)
        ensures
            r == sentiment_of(message@),
    {
        if contains_text(message, "happy") || contains_text(message, "excited") || contains_text(message, "great") {
            Sentiment::Positive
        } else if contains_text(message, "sad") || contains_text(message, "disappointed") || contains_text(message, "bad") {
            Sentiment::Negative
        } else {
            Sentiment::Neutral
        }
    }
    /// The reply text for the analysed request.
    fn generate_response(&self, analysis: &RequestAnalysis) -> (r: String)
        ensures
            r@ == response_text(analysis.intent, opt_view(analysis.platform), opt_view(analysis.content_type)),
    {
        match analysis.intent {
            Intent::GenerateContent => {
                let mut out = String::from_str(GENERATE_HEAD);
                out.append(text_or(&analysis.content_type, "post"));
                out.append(GENERATE_MIDDLE);
                out.append(text_or(&analysis.platform, "general"));
                out.append(GENERATE_TAIL);
                out
            },
            Intent::PostContent => {
                let mut out = String::from_str(POST_HEAD);
                out.append(text_or(&analysis.platform, "your chosen platform"));
                out.append(POST_TAIL);
                out
            },
            Intent::ConfigurePlatform => {
                let mut out = String::from_str(CONFIGURE_HEAD);
                out.append(text_or(&analysis.platform, "social media platform"));
                out.append(CONFIGURE_TAIL);
                out
            },
            Intent::Help => String::from_str(HELP_TEXT),
            Intent::GeneralChat => String::from_str(CHAT_TEXT),
        }
    }

    /// Four follow-ups that fit the intent.
    fn generate_suggestions(&self, analysis: &RequestAnalysis) -> (r: Vec<String>)
        ensures
            views(r@) == suggestions_for(analysis.intent),
    {
        let (a, b, c, d) = match analysis.intent {
            Intent::GenerateContent => ("Generate LinkedIn post", "Create Twitter thread", "Write Instagram caption", "Compose email"),
            Intent::PostContent => ("Post to LinkedIn", "Share on Twitter", "Publish on Facebook", "Upload to Instagram"),
            Intent::ConfigurePlatform => ("Configure LinkedIn API", "Setup Twitter API", "Connect Facebook API", "Link Instagram API"),
            _ => ("Generate content", "Post to social media", "Configure platforms", "Get help"),
        };
        let mut suggestions: Vec<String> = Vec::new();
        suggestions.push(String::from_str(a));
        suggestions.push(String::from_str(b));
        suggestions.push(String::from_str(c));
        suggestions.push(String::from_str(d));
        assert(views(suggestions@) =~= seq![a@, b@, c@, d@]);
        suggestions
    }

    /// Proposes generating content when a platform is known.
    fn generate_actions(&self, analysis: &RequestAnalysis, request: &AgentRequest) -> (r: Vec<AgentAction>)
        ensures
            proposes(r@, *analysis, *request),
    {
        let mut actions: Vec<AgentAction> = Vec::new();
        if let Some(platform) = &analysis.platform {
            actions.push(AgentAction {
                action_type: String::from_str("generate_content"),
                platform: Some(platform.clone()),
                content: Some(request.message.clone()),
                metadata: ActionMetadata {
                    content_type: copy_opt(&analysis.content_type),
                    urgency: analysis.urgency,
                    sentiment: analysis.sentiment,
                },
            });
        }
        actions
    }
}

/// The text held, or `default` when there is none.
fn text_or<'a>(o: &'a Option<String>, default: &'a str) -> (r: &'a str)
    ensures
        r@ == or_default(opt_view(*o), default@),
{
    match o {
        Some(s) => s.as_str(),
        None => default,
    }
}

} // verus!
