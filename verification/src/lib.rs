//! A single shared pseudo-terminal session bridged to remote clients.
//!
//! The library holds the verified core of the bridge: the drain-once poll
//! buffer, the bounded command history, the broadcast fan-out model, the
//! command channel with its readiness gate, the prompt-based working
//! directory inference, and the assistant request/response logic.

mod assist;
mod buffer;
mod channel;
mod extract;
mod history;
mod hub;
mod prompt;
mod session;
mod textops;

pub use assist::AiRequest;
pub use assist::AssistEvent;
pub use assist::AssistMode;
pub use assist::AssistReply;
pub use assist::assist_reply;
pub use assist::build_system_prompt;
pub use assist::build_user_prompt;
pub use assist::classify_mode;
pub use assist::deliver_assist;
pub use assist::mode_spec;
pub use assist::recent3_spec;
pub use assist::render_history;
pub use assist::render_recent;
pub use assist::reply_inject;
pub use assist::reply_response;
pub use assist::resolve_dir;
pub use assist::resolved_dir;
pub use assist::starts_with;
pub use assist::str_starts_with;
pub use extract::block_at;
pub use extract::block_extract;
pub use extract::block_group;
pub use extract::block_shape;
pub use extract::extract_command;
pub use extract::fence_at;
pub use extract::first_line;
pub use extract::has_block;
pub use extract::is_first_block;
pub use extract::is_first_nl;
pub use extract::lemma_block_unique;
pub use extract::open_at;
pub use session::Session;

pub use buffer::PollBuffer;
pub use buffer::concat_chunks;
pub use buffer::lemma_concat_chunks_empty;
pub use buffer::lemma_concat_chunks_push;
pub use history::HISTORY_CAPACITY;
pub use history::HistoryRing;
pub use history::lemma_ring_keeps_last_five;
pub use history::lemma_ring_push_bounded;
pub use history::ring_push;
pub use channel::CommandChannel;
pub use channel::Readiness;
pub use hub::Hub;
pub use hub::has_sub;
pub use hub::hub_publish;
pub use hub::hub_subscribe;
pub use hub::idx_of;
pub use hub::lemma_publish_after_departure;
pub use hub::lemma_publish_delivery;
pub use prompt::chunk_contains;
pub use prompt::contains_char;
pub use prompt::has_prompt;
pub use prompt::is_first_match;
pub use prompt::is_prompt_start;
pub use prompt::lemma_shape_unique;
pub use prompt::match_at;
pub use prompt::prompt_group;
pub use prompt::prompt_shape;
pub use prompt::scan_prompt;
pub use prompt::update_dir;
pub use textops::lower_of;
pub use textops::trim_of;
