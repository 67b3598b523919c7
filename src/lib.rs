//! A two-party atomic-swap escrow: a maker locks asset A in a vault owned by a
//! program-derived address and names the amount of asset B wanted; a taker
//! settles by paying asset B and receiving the vault's content.

pub mod error;
pub mod key;
pub mod lemmas;
pub mod make_offer;
pub mod shared;
pub mod state;
pub mod take_offer;

pub use error::ErrorCode;
pub use key::Key;
pub use make_offer::{make_offer, MakeOffer};
pub use shared::{close_token_account, transfer_tokens, Authority, TokenAccount, TokenError, Wallet};
pub use state::{Escrow, Offer, OpenOffer};
pub use take_offer::{take_offer, TakeOffer};
