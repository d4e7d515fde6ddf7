pub mod abi;
pub mod access_list;
pub mod amount;
pub mod block;
mod block_parts;
pub mod bundles;
pub mod errors;
pub mod laws;
pub mod ledger;
pub mod logs;
pub mod outcome;
pub mod prepare;
pub mod primitives;
pub mod replay;
pub mod replay_until;
pub mod report_laws;
pub mod sequence;
pub mod settings;
pub mod simulate;
pub mod table;
pub mod text;
pub mod token_changes;
pub mod token_laws;
pub mod tracking;
pub mod transaction_replay;
pub mod word;
