//! Parameters that the runtime hands to its pallets.
use vstd::prelude::*;
use crate::time::BlockNumber;

verus! {

/// Block hashes kept by number (the oldest are pruned first).
pub const BLOCK_HASH_COUNT: BlockNumber = 250;

/// The SS58 prefix of this chain's addresses.
pub const SS58_PREFIX: u8 = 28;

/// The smallest balance that keeps an account alive.
pub const EXISTENTIAL_DEPOSIT: u128 = 500;

/// Fee of a transfer.
pub const TRANSFER_FEE: u128 = 0;

/// Fee of creating an account.
pub const CREATION_FEE: u128 = 0;

/// Fee per byte of a transaction.
pub const TRANSACTION_BYTE_FEE: u128 = 1;

/// Most balance locks an account may hold.
pub const MAX_LOCKS: u32 = 50;

/// Shortest handle, in bytes.
pub const MIN_HANDLE_LEN: u32 = 5;

/// Longest handle, in bytes.
pub const MAX_HANDLE_LEN: u32 = 50;

/// Deepest nesting of comments.
pub const MAX_COMMENT_DEPTH: u32 = 10;

/// Most users that deleting a role processes at once.
pub const MAX_USERS_TO_PROCESS_PER_DELETE_ROLE: u16 = 40;

/// Score given for following a space.
pub const FOLLOW_SPACE_ACTION_WEIGHT: i16 = 7;

/// Score given for following an account.
pub const FOLLOW_ACCOUNT_ACTION_WEIGHT: i16 = 3;

/// Score given for sharing a post.
pub const SHARE_POST_ACTION_WEIGHT: i16 = 7;

/// Score given for upvoting a post.
pub const UPVOTE_POST_ACTION_WEIGHT: i16 = 5;

/// Score given for downvoting a post.
pub const DOWNVOTE_POST_ACTION_WEIGHT: i16 = -3;

/// Score given for creating a comment.
pub const CREATE_COMMENT_ACTION_WEIGHT: i16 = 5;

/// Score given for sharing a comment.
pub const SHARE_COMMENT_ACTION_WEIGHT: i16 = 5;

/// Score given for upvoting a comment.
pub const UPVOTE_COMMENT_ACTION_WEIGHT: i16 = 4;

/// Score given for downvoting a comment.
pub const DOWNVOTE_COMMENT_ACTION_WEIGHT: i16 = -2;

/// The configuration that the runtime gives the XCM executor.
pub struct XcmConfig;

} // verus!
