//! Escrowed capture-the-flag challenges.
//!
//! A creator registers the SHA-256 commitment of a secret flag together with a
//! deposit; whoever first submits a plaintext that hashes to the commitment
//! receives everything the challenge account holds above its rent-exempt
//! reserve, and the record stays behind as a permanent "solved" marker.
//!
//! The host ledger owns the accounts. It hands each operation the accounts it
//! touches as plain values, with the reserve it asks for, and applies what
//! the operation decided. [`create_challenge`] and [`submit_guess`] are the
//! two operations; [`laws`] states what holds of every sequence of them.

pub mod accounts;
pub mod address;
pub mod compare;
pub mod create;
pub mod digest;
pub mod error;
pub mod guess;
pub mod laws;
pub mod record;

pub use accounts::{ChallengeAccount, CreateChallenge, CreatorAccount, GuesserAccount, SubmitGuess};
pub use address::{derive_challenge_address, ChallengeRef, PROGRAM_ID, SEED_PREFIX};
pub use create::{create_challenge, create_challenge_at};
pub use error::CtfError;
pub use guess::{settle_guess, submit_guess, Outcome};
pub use record::{ChallengeData, CHALLENGE_SPACE, HEADER_LEN, RECORD_LEN};
