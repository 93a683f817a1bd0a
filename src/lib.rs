//! A git mirroring daemon's core: webhook authentication, the blacklist,
//! the job queue, remote resolution and the mirror job state machine.
pub mod job;
pub mod queue;
pub mod remotes;
pub mod settings;
pub mod signature;

pub use job::{
    command_error, contains, is_absolute, is_absolute_path, lemma_clone_only_when_missing, lohr_read, opening_command,
    read_lohr, text_contains, GitCommand, Job, JobError, JobState, MirrorDir, Operation,
    ProcessOutput, Repository, Step,
};
pub use queue::{
    accept_webhook, lemma_jobs_leave_in_arrival_order, lemma_pops_in_push_order, pop_order,
    JobQueue,
};
pub use remotes::{
    expand_stem, get_remotes, is_blank, is_white_space, is_white_space_char, lemma_defaults_without_lohr, lemma_lohr_overrides_defaults,
    lohr_entries, lohr_remotes, resolved_remotes, stem_url, stems_expanded, views,
};
pub use settings::{blacklisted, regex_finds, GlobalSettings};
pub use signature::{
    check_envelope, check_payload, flip_bit, hex_decoded, hex_encoded, hmac_sha256_of, is_hex,
    lemma_flipped_signature_rejected, lemma_genuine_signature_accepted, lemma_hex_round_trip,
    signature_valid, validate_signature, AuthError, SignedJson, BODY_LIMIT,
};
