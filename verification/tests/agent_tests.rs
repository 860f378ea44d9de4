use agentloop::agent::analysis::{AgentRequest, Intent, Sentiment, Urgency};
use agentloop::agent::context::{AgentContext, PlatformConfig};
use agentloop::agent::memory::{MemoryManager, MemoryMessage, SessionMemory};
use agentloop::agent::socio::SocioAgent;
use agentloop::keyed::KeyedList;

fn request(message: &str, platform: Option<&str>, content_type: Option<&str>) -> AgentRequest {
    AgentRequest {
        message: message.to_string(),
        session_id: String::from("s1"),
        platform: platform.map(|p| p.to_string()),
        content_type: content_type.map(|c| c.to_string()),
    }
}

fn msg(content: &str) -> MemoryMessage {
    MemoryMessage {
        id: String::from("id"),
        content: content.to_string(),
        sender: String::from("user"),
        timestamp: 0,
        metadata: String::from("{}"),
    }
}

#[test]
fn context_tables_read_back_what_was_set() {
    let mut ctx = AgentContext::new();
    assert_eq!(ctx.get_user_preference("tone"), None);
    ctx.set_user_preference(String::from("tone"), String::from("casual"));
    ctx.set_user_preference(String::from("tone"), String::from("formal"));
    assert_eq!(ctx.get_user_preference("tone"), Some(&String::from("formal")));
    let config = PlatformConfig { platform: String::from("linkedin"), configured: true, preferences: KeyedList::new() };
    ctx.configure_platform(String::from("linkedin"), config.clone());
    assert_eq!(ctx.get_platform_config("linkedin"), Some(&config));
    assert_eq!(ctx.get_platform_config("twitter"), None);
    ctx.add_content_template(String::from("weekly"), String::from("This week: {}"));
    assert_eq!(ctx.get_content_template("weekly"), Some(&String::from("This week: {}")));
    assert_eq!(ctx.get_user_preference("weekly"), None);
}

#[test]
fn analysis_reads_the_lowercased_message() {
    let agent = SocioAgent::new();
    let a = agent.analyze_request(&request("Please GENERATE an URGENT LinkedIn STORY, I'm so Excited", None, None));
    assert_eq!(a.intent, Intent::GenerateContent);
    assert_eq!(a.platform, Some(String::from("linkedin")));
    assert_eq!(a.content_type, Some(String::from("story")));
    assert_eq!(a.urgency, Urgency::High);
    assert_eq!(a.sentiment, Sentiment::Positive);
    let b = agent.analyze_request(&request("Share this soon, sad news", Some("facebook"), Some("caption")));
    assert_eq!(b.intent, Intent::PostContent);
    assert_eq!(b.platform, Some(String::from("facebook")));
    assert_eq!(b.content_type, Some(String::from("caption")));
    assert_eq!(b.urgency, Urgency::Medium);
    assert_eq!(b.sentiment, Sentiment::Negative);
    let c = agent.analyze_request(&request("hello there", None, None));
    assert_eq!(c.intent, Intent::GeneralChat);
    assert_eq!(c.platform, None);
    assert_eq!(c.content_type, Some(String::from("post")));
    assert_eq!(c.urgency, Urgency::Low);
    assert_eq!(c.sentiment, Sentiment::Neutral);
}

#[test]
fn generate_request_gets_content_reply_and_action() {
    let mut agent = SocioAgent::new();
    let r = agent.process_request(&request("Write a post for twitter", None, None));
    assert_eq!(
        r.response,
        "I'll help you generate post content for twitter. Let me create something engaging and platform-appropriate for you."
    );
    assert_eq!(r.session_id, "s1");
    assert_eq!(
        r.suggestions,
        vec!["Generate LinkedIn post", "Create Twitter thread", "Write Instagram caption", "Compose email"]
    );
    assert_eq!(r.actions.len(), 1);
    assert_eq!(r.actions[0].action_type, "generate_content");
    assert_eq!(r.actions[0].platform, Some(String::from("twitter")));
    assert_eq!(r.actions[0].content, Some(String::from("Write a post for twitter")));
    assert_eq!(r.actions[0].metadata.content_type, Some(String::from("post")));
    assert_eq!(r.actions[0].metadata.urgency, Urgency::Low);
}

#[test]
fn replies_per_intent() {
    let mut agent = SocioAgent::new();
    let post = agent.process_request(&request("publish it", None, None));
    assert_eq!(post.response, "I'll help you post content to your chosen platform. First, let me generate the content and then we can publish it.");
    assert!(post.actions.is_empty());
    assert_eq!(post.suggestions[0], "Post to LinkedIn");
    let conf = agent.process_request(&request("connect my instagram", None, None));
    assert_eq!(conf.response, "I'll help you configure instagram. Please provide your API credentials and I'll set up the connection for you.");
    assert_eq!(conf.suggestions[3], "Link Instagram API");
    let conf2 = agent.process_request(&request("setup please", None, None));
    assert_eq!(conf2.response, "I'll help you configure social media platform. Please provide your API credentials and I'll set up the connection for you.");
    let help = agent.process_request(&request("how does this work", None, None));
    assert!(help.response.starts_with("I'm your AI social media assistant! I can help you:\n\n• Generate content"));
    assert_eq!(help.suggestions, vec!["Generate content", "Post to social media", "Configure platforms", "Get help"]);
    let chat = agent.process_request(&request("good morning", None, None));
    assert_eq!(chat.response, "I understand you'd like to chat! I'm here to help with your social media content needs. How can I assist you today?");
    let gen_default = agent.process_request(&request("create something", None, None));
    assert_eq!(gen_default.response, "I'll help you generate post content for general. Let me create something engaging and platform-appropriate for you.");
}

#[test]
fn processing_remembers_both_sides() {
    let mut agent = SocioAgent::new();
    let r = agent.process_request(&request("hello", None, None));
    let messages = agent.memory.get_session_messages("s1");
    assert_eq!(messages.len(), 2);
    assert_eq!(messages[0].content, "hello");
    assert_eq!(messages[0].sender, "user");
    assert_eq!(messages[1].content, r.response);
    assert_eq!(messages[1].sender, "assistant");
    assert_eq!(messages[0].metadata, "{}");
    assert!(messages[0].timestamp > 1_600_000_000_000, "stamped with the current time");
    assert!(uuid::Uuid::parse_str(&messages[0].id).is_ok());
    assert_ne!(messages[0].id, messages[1].id);
    assert_eq!(agent.memory.get_session_count(), 1);
    assert_eq!(agent.memory.get_total_message_count(), 2);
}

#[test]
fn session_memory_keeps_the_newest() {
    let mut s = SessionMemory::new(String::from("s"), 3);
    for i in 0..5 {
        s.add_message(msg(&format!("m{}", i)));
    }
    let all: Vec<String> = s.get_all_messages().iter().map(|m| m.content.clone()).collect();
    assert_eq!(all, vec!["m2", "m3", "m4"]);
    let recent: Vec<String> = s.get_recent_messages(2).iter().map(|m| m.content.clone()).collect();
    assert_eq!(recent, vec!["m3", "m4"]);
    assert_eq!(s.get_recent_messages(10).len(), 3);
    s.clear();
    assert!(s.get_all_messages().is_empty());
    assert_eq!(s.max_messages, 3);
}

#[test]
fn memory_manager_stores_reads_and_clears() {
    let mut m = MemoryManager::new();
    assert_eq!(m.get_session_count(), 0);
    for i in 0..60 {
        m.store_message_at("a", &format!("c{}", i), "user", format!("id{}", i), i);
    }
    m.store_message("b", "hi", "assistant");
    let a = m.get_session_messages("a");
    assert_eq!(a.len(), 50);
    assert_eq!(a[0].content, "c10");
    assert_eq!(a[49].content, "c59");
    assert_eq!(a[49].timestamp, 59);
    let recent = m.get_recent_context("a", 2);
    assert_eq!(recent.iter().map(|x| x.content.clone()).collect::<Vec<_>>(), vec!["c58", "c59"]);
    assert!(m.get_session_messages("zzz").is_empty());
    assert!(m.get_recent_context("zzz", 3).is_empty());
    assert_eq!(m.get_session_count(), 2);
    assert_eq!(m.get_total_message_count(), 51);
    m.clear_session("a");
    assert!(m.get_session_messages("a").is_empty());
    assert_eq!(m.get_session_count(), 2);
    assert_eq!(m.get_total_message_count(), 1);
    m.clear_session("missing");
    assert_eq!(m.get_session_count(), 2);
    m.clear_all_sessions();
    assert_eq!(m.get_session_count(), 0);
    assert_eq!(m.get_total_message_count(), 0);
}

#[test]
fn empty_sessions_are_dropped_past_the_session_limit() {
    let mut m = MemoryManager::new();
    for i in 0..100 {
        let id = format!("s{}", i);
        m.store_message_at(&id, "x", "user", String::from("i"), 0);
    }
    m.clear_session("s0");
    m.clear_session("s1");
    assert_eq!(m.get_session_count(), 100);
    m.store_message_at("s100", "x", "user", String::from("i"), 0);
    assert_eq!(m.get_session_count(), 99);
    assert!(m.get_session_messages("s0").is_empty());
    assert_eq!(m.get_session_messages("s100").len(), 1);
}

#[test]
fn lowered_analysis_takes_the_text_as_given() {
    let agent = SocioAgent::new();
    let req = request("ignored", None, None);
    let a = agent.analyze_lowered("please post to email asap", &req);
    assert_eq!(a.intent, Intent::PostContent);
    assert_eq!(a.platform, Some(String::from("email")));
    assert_eq!(a.content_type, Some(String::from("post")));
    assert_eq!(a.urgency, Urgency::High);
    let upper = agent.analyze_lowered("POST TO EMAIL", &req);
    assert_eq!(upper.intent, Intent::GeneralChat);
    assert_eq!(upper.platform, None);
}

#[test]
fn last_template_written_is_read_back() {
    let mut ctx = AgentContext::new();
    ctx.add_content_template(String::from("a"), String::from("one"));
    ctx.set_user_preference(String::from("a"), String::from("pref"));
    ctx.add_content_template(String::from("b"), String::from("two"));
    ctx.add_content_template(String::from("a"), String::from("three"));
    assert_eq!(ctx.get_content_template("a"), Some(&String::from("three")));
    assert_eq!(ctx.get_content_template("b"), Some(&String::from("two")));
    assert_eq!(ctx.get_content_template("c"), None);
}
