use vstd::prelude::*;
use crate::store::ValueIter;

verus! {

#[verifier::external_type_specification]
#[verifier::external_body]
pub struct ExTokenizer(tokenizers::Tokenizer);

#[verifier::external_type_specification]
#[verifier::external_body]
pub struct ExTrainerWrapper(tokenizers::models::TrainerWrapper);

/// The vocabulary size a trainer was configured with.
pub uninterp spec fn trainer_vocab_size(t: tokenizers::models::TrainerWrapper) -> int;

/// The contents of the special tokens a trainer was configured with, in order.
pub uninterp spec fn trainer_special_tokens(t: tokenizers::models::TrainerWrapper) -> Seq<Seq<char>>;

/// Whether a tokenizer's stages are the byte-level configuration this library
/// trains with: a strip-then-NFC normalizer, and byte-level pre-tokenizer,
/// post-processor and decoder.
pub uninterp spec fn pipeline_stages_byte_level(t: tokenizers::Tokenizer) -> bool;

/// Whether a tokenizer's vocabulary, added tokens included, holds a token
/// with the given contents.
pub uninterp spec fn vocab_contains(t: tokenizers::Tokenizer, token: Seq<char>) -> bool;

/// How many control tokens are reserved in every trained vocabulary.
pub const RESERVED_TOKEN_COUNT: usize = 5;

/// The five reserved control tokens, in order: padding, unknown,
/// sequence-start, sequence-separator, mask.
pub open spec fn reserved_token_views() -> Seq<Seq<char>> {
    seq!["[PAD]"@, "[UNK]"@, "[CLS]"@, "[SEP]"@, "[MASK]"@]
}

/// The five reserved control tokens. They are always handed to the trainer
/// marked special, so they stand in every trained vocabulary, are never
/// split, and never depend on corpus content.
pub fn reserved_tokens() -> (r: Vec<String>)
    ensures
        r@.len() == RESERVED_TOKEN_COUNT,
        r@.map_values(|s: String| s@) == reserved_token_views(),
{
    let mut v: Vec<String> = Vec::new();
    v.push(String::from_str("[PAD]"));
    v.push(String::from_str("[UNK]"));
    v.push(String::from_str("[CLS]"));
    v.push(String::from_str("[SEP]"));
    v.push(String::from_str("[MASK]"));
    proof {
        assert(v@.map_values(|s: String| s@) =~= reserved_token_views());
    }
    v
}

/// Whether a requested vocabulary size has room for the reserved tokens. A
/// smaller request is an input error, fatal before any training is tried.
pub fn vocab_size_accepted(vocab_size: usize) -> (r: bool)
    ensures
        r == (vocab_size >= RESERVED_TOKEN_COUNT),
{
    vocab_size >= RESERVED_TOKEN_COUNT
}

/// Relies on `WordPieceTrainer::builder` and `AddedToken::from`: the builder
/// records the requested vocabulary size and the special tokens in order,
/// each marked special, with progress display switched on.
#[verifier::external_body]
fn new_wordpiece_trainer(vocab_size: usize, special: Vec<String>) -> (r: tokenizers::models::TrainerWrapper)
    ensures
        trainer_vocab_size(r) == vocab_size as int,
        trainer_special_tokens(r) == special@.map_values(|s: String| s@),
{
    let tokens: Vec<tokenizers::AddedToken> = special
        .into_iter()
        .map(|s| tokenizers::AddedToken::from(s, true))
        .collect();
    tokenizers::models::wordpiece::WordPieceTrainer::builder()
        .vocab_size(vocab_size)
        .show_progress(true)
        .special_tokens(tokens)
        .build()
        .into()
}

/// Relies on `TokenizerBuilder`: assembles a WordPiece model with a
/// strip-then-NFC normalizer and byte-level pre-tokenizer, post-processor and
/// decoder. `build` fails only when no model was set, and one always is, so
/// the result is always the built pipeline.
#[verifier::external_body]
fn build_byte_level_pipeline() -> (r: Result<tokenizers::Tokenizer, String>)
    ensures
        r is Ok,
        r matches Ok(t) ==> pipeline_stages_byte_level(t),
{
    let built = tokenizers::TokenizerBuilder::new()
        .with_model(tokenizers::models::wordpiece::WordPiece::default())
        .with_normalizer(Some(tokenizers::normalizers::utils::Sequence::new(vec![
            tokenizers::normalizers::strip::Strip::new(true, true).into(),
            tokenizers::normalizers::unicode::NFC.into(),
        ])))
        .with_pre_tokenizer(Some(tokenizers::pre_tokenizers::byte_level::ByteLevel::default()))
        .with_post_processor(Some(tokenizers::pre_tokenizers::byte_level::ByteLevel::default()))
        .with_decoder(Some(tokenizers::pre_tokenizers::byte_level::ByteLevel::default()))
        .build();
    match built {
        Ok(t) => Ok(t.into()),
        Err(e) => Err(e.to_string()),
    }
}

/// Relies on `TokenizerImpl::train`: feeds every corpus string through the
/// pipeline to the trainer and installs the trained model, leaving the other
/// stages untouched. On success every trainer reports its special tokens
/// back, and each of them with non-empty contents is registered in the
/// tokenizer's vocabulary of added tokens (the registration silently skips a
/// token whose contents are empty); on failure the trainer's message is
/// reported.
#[verifier::external_body]
fn train_in_place(
    tokenizer: &mut tokenizers::Tokenizer,
    trainer: &mut tokenizers::models::TrainerWrapper,
    corpus: Vec<String>,
) -> (r: Result<(), String>)
    ensures
        pipeline_stages_byte_level(*old(tokenizer)) ==> pipeline_stages_byte_level(*final(tokenizer)),
        r is Ok ==> (forall|i: int|
            0 <= i < trainer_special_tokens(*old(trainer)).len()
                && trainer_special_tokens(*old(trainer))[i].len() > 0
                ==> vocab_contains(*final(tokenizer), trainer_special_tokens(*old(trainer))[i])),
{
    match tokenizer.train(trainer, corpus.into_iter()) {
        Ok(_) => Ok(()),
        Err(e) => Err(e.to_string()),
    }
}

/// Why a training run failed: the requested vocabulary size cannot hold the
/// reserved tokens, the pipeline could not be assembled, or the trainer
/// itself reported an error. Every failure is fatal to the run.
#[derive(Debug)]
pub enum TrainError {
    VocabSizeTooSmall,
    PipelineBuild(String),
    Training(String),
}

/// Builds the WordPiece trainer for the requested vocabulary size, configured
/// with the five reserved control tokens and progress display.
pub fn make_trainer(vocab_size: usize) -> (r: tokenizers::models::TrainerWrapper)
    ensures
        trainer_vocab_size(r) == vocab_size as int,
        trainer_special_tokens(r) == reserved_token_views(),
{
    let special = reserved_tokens();
    new_wordpiece_trainer(vocab_size, special)
}

/// Assembles the tokenization pipeline around an untrained WordPiece model:
/// strip-then-NFC normalization, with byte-level pre-tokenization,
/// post-processing and decoding so token boundaries round-trip to byte
/// offsets. Assembly always succeeds.
pub fn build_pipeline() -> (r: Result<tokenizers::Tokenizer, TrainError>)
    ensures
        r is Ok,
        r matches Ok(t) ==> pipeline_stages_byte_level(t),
{
    match build_byte_level_pipeline() {
        Ok(t) => Ok(t),
        Err(m) => Err(TrainError::PipelineBuild(m)),
    }
}

/// Trains a WordPiece vocabulary over the given corpus records and returns
/// the trained pipeline. A vocabulary size below the reserved-token count is
/// rejected as an input error before training; past that, the external
/// trainer decides success, and a failure is reported with its diagnostic and
/// is fatal to the run, never retried. On success the result carries the
/// byte-level stages and holds all five reserved tokens in its vocabulary.
pub fn train_wordpiece(vocab_size: usize, corpus: Vec<String>) -> (r: Result<tokenizers::Tokenizer, TrainError>)
    ensures
        vocab_size < RESERVED_TOKEN_COUNT ==> r is Err && r->Err_0 is VocabSizeTooSmall,
        r matches Err(e) && e is VocabSizeTooSmall ==> vocab_size < RESERVED_TOKEN_COUNT,
        r is Err ==> !(r->Err_0 is PipelineBuild),
        r matches Ok(t) ==> pipeline_stages_byte_level(t),
        r matches Ok(t) ==> (forall|i: int|
            0 <= i < reserved_token_views().len()
                ==> vocab_contains(t, reserved_token_views()[i])),
{
    if !vocab_size_accepted(vocab_size) {
        return Err(TrainError::VocabSizeTooSmall);
    }
    let mut trainer = make_trainer(vocab_size);
    let mut tokenizer = match build_pipeline() {
        Ok(t) => t,
        Err(e) => {
            return Err(e);
        },
    };
    match train_in_place(&mut tokenizer, &mut trainer, corpus) {
        Ok(()) => {
            proof {
                reveal_strlit("[PAD]");
                reveal_strlit("[UNK]");
                reveal_strlit("[CLS]");
                reveal_strlit("[SEP]");
                reveal_strlit("[MASK]");
                assert forall|i: int| 0 <= i < reserved_token_views().len()
                    implies vocab_contains(tokenizer, reserved_token_views()[i]) by {
                    assert(reserved_token_views()[0].len() == 5);
                    assert(reserved_token_views()[1].len() == 5);
                    assert(reserved_token_views()[2].len() == 5);
                    assert(reserved_token_views()[3].len() == 5);
                    assert(reserved_token_views()[4].len() == 6);
                }
            }
            Ok(tokenizer)
        },
        Err(m) => Err(TrainError::Training(m)),
    }
}

/// Drains a store's value stream and trains on what it yielded: the database
/// values in key order, lossily decoded. The result's guarantees are those of
/// the training itself: a too-small vocabulary size is rejected, and a
/// trained pipeline carries the byte-level stages and the reserved tokens.
pub fn train_from_store(stream: &mut ValueIter<'_>, vocab_size: usize) -> (r: Result<tokenizers::Tokenizer, TrainError>)
    requires
        old(stream).wf(),
    ensures
        final(stream).wf(),
        final(stream).remaining().len() == 0,
        final(stream).all_values() == old(stream).all_values(),
        vocab_size < RESERVED_TOKEN_COUNT ==> r is Err && r->Err_0 is VocabSizeTooSmall,
        r matches Err(e) && e is VocabSizeTooSmall ==> vocab_size < RESERVED_TOKEN_COUNT,
        r is Err ==> !(r->Err_0 is PipelineBuild),
        r matches Ok(t) ==> pipeline_stages_byte_level(t),
        r matches Ok(t) ==> (forall|i: int|
            0 <= i < reserved_token_views().len()
                ==> vocab_contains(t, reserved_token_views()[i])),
{
    let corpus = stream.read_all();
    train_wordpiece(vocab_size, corpus)
}

} // verus!
