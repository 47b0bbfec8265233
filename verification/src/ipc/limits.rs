//! Wire-contract bounds enforced by IPC message decoding.

use vstd::prelude::*;

verus! {

/// Maximum entries in `init.context.messages` and `messages.messages`.
pub const MAX_HISTORICAL_MESSAGES: usize = 256;

/// Maximum entries in self-improvement `scopes` and `acceptance_tests`.
pub const MAX_SELF_IMPROVEMENT_LIST_ITEMS: usize = 64;

/// Maximum chars for identifier-like text fields.
pub const MAX_IDENTIFIER_TEXT_CHARS: usize = 128;

/// Maximum chars for model identifiers.
pub const MAX_MODEL_TEXT_CHARS: usize = 256;

/// Maximum chars for token-like fields.
pub const MAX_TOKEN_TEXT_CHARS: usize = 2048;

/// Maximum chars for short freeform text.
pub const MAX_SHORT_TEXT_CHARS: usize = 1024;

/// Maximum chars for schedule expressions/values.
pub const MAX_SCHEDULE_VALUE_TEXT_CHARS: usize = 512;

/// Maximum chars for message text fields (32 KiB).
pub const MAX_MESSAGE_TEXT_CHARS: usize = 32768;

/// Maximum chars for prompt/objective text fields (32 KiB).
pub const MAX_PROMPT_TEXT_CHARS: usize = 32768;

/// Maximum chars for streamed output chunks (64 KiB).
pub const MAX_OUTPUT_DELTA_TEXT_CHARS: usize = 65536;

/// Maximum chars for final output result payloads (256 KiB).
pub const MAX_OUTPUT_RESULT_TEXT_CHARS: usize = 262144;

/// Maximum chars for session identifiers.
pub const MAX_SESSION_ID_TEXT_CHARS: usize = 128;

/// Maximum chars for self-improvement list item text.
pub const MAX_LIST_ITEM_TEXT_CHARS: usize = 1024;

/// Maximum chars for absolute HTTP URL fields.
pub const MAX_ABSOLUTE_HTTP_URL_CHARS: usize = 2048;

} // verus!
