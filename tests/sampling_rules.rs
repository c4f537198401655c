use llm_server::config::{ContextDefaults, LContextConfig, LlmRunner};
use llm_server::sampling::{
    choose_strategy, effective_top_k, greedy_token, keep_count, plan_step, repeat_window, Candidates,
    Strategy,
};
use llm_server::text::{contains_char, contains_text, strip_artifacts, trimmed};
use llm_server::tokens::{LToken, LTokenSequence};

#[test]
fn repeat_window_boundaries() {
    assert_eq!(repeat_window(10, -1, 8), 8);
    assert_eq!(repeat_window(3, -1, 8), 3);
    assert_eq!(repeat_window(10, 0, 8), 0);
    assert_eq!(repeat_window(100, 64, 1024), 64);
    assert_eq!(repeat_window(10, 64, 1024), 10);
    assert_eq!(repeat_window(10, 64, 5), 5);
}

fn greedy(keys: Vec<i64>) -> i32 {
    greedy_token(&Candidates::from_keys(keys))
}

#[test]
fn greedy_ties_go_to_lowest_id() {
    assert_eq!(greedy(vec![1, 5, 5, 2]), 1);
    assert_eq!(greedy(vec![7]), 0);
    assert_eq!(greedy(vec![-3, -1, -2]), 1);
    let keys = vec![4, 9, 2, 9, 9];
    assert_eq!(greedy(keys.clone()), greedy(keys.clone()));
    assert_eq!(greedy(keys), 1);
}

#[test]
fn greedy_ties_follow_ids_not_positions() {
    let c = Candidates { ids: vec![7, 3, 5, 1], keys: vec![2, 8, 8, 0] };
    assert_eq!(greedy_token(&c), 3);
    let c = Candidates { ids: vec![9, 4, 2], keys: vec![6, 6, 6] };
    assert_eq!(greedy_token(&c), 2);
    assert_eq!(c.len(), 3);
}

#[test]
fn top_k_keeps_between_one_and_all() {
    for top_k in [-5i32, 0, 1, 3, 5, 10] {
        let p = plan_step(top_k, 5, 64, 0, 10, true, 0);
        assert!(p.top_k_keep >= 1 && p.top_k_keep <= 5);
    }
    assert_eq!(plan_step(3, 5, 64, 0, 10, true, 0).top_k_keep, 3);
    assert_eq!(plan_step(0, 5, 64, 0, 10, true, 0).top_k_keep, 5);
    assert_eq!(plan_step(10, 5, 64, 0, 10, true, 0).top_k_keep, 5);
    assert_eq!(keep_count(0, 1, 5), 1);
    assert_eq!(keep_count(9, 1, 5), 5);
    assert_eq!(keep_count(2, 3, 5), 3);
}

#[test]
fn strategy_selection() {
    assert_eq!(choose_strategy(false, 1), Strategy::Greedy);
    assert_eq!(choose_strategy(true, 1), Strategy::MirostatV1);
    assert_eq!(choose_strategy(true, 2), Strategy::MirostatV2);
    assert_eq!(choose_strategy(true, 0), Strategy::Temperature);
    assert_eq!(effective_top_k(0, 32000), 32000);
    assert_eq!(effective_top_k(40, 32000), 40);
    let p = plan_step(-1, 100, -1, 50, 30, true, 1);
    assert_eq!(p.top_k_keep, 100);
    assert_eq!(p.window, 30);
    assert_eq!(p.top_k, 100);
    assert_eq!(p.strategy, Strategy::MirostatV1);
    assert_eq!(p.cap, Some(100));
    let p = plan_step(40, 100, 0, 50, 30, true, 2);
    assert_eq!(p.window, 0);
    assert_eq!(p.cap, None);
}

#[test]
fn text_helpers() {
    assert_eq!(strip_artifacts("#a\nb#"), "ab");
    assert_eq!(strip_artifacts(""), "");
    assert_eq!(trimmed("  hi there \n"), "hi there");
    assert_eq!(trimmed("\u{3000}\u{a0}x y\u{2029}\t"), "x y");
    assert_eq!(trimmed(" \n "), "");
    assert!(contains_char("a\nb", '\n'));
    assert!(!contains_char("ab", '\n'));
    assert!(contains_text("abc\n\n", "\n\n"));
    assert!(contains_text("abc", ""));
    assert!(!contains_text("ab", "abc"));
    assert!(!contains_text("a\nb\n", "\n\n"));
}

#[test]
fn token_sequences() {
    let mut s = LTokenSequence::new();
    assert!(s.is_empty());
    s.push(5);
    s.push(6);
    s.resize(4);
    assert_eq!(s.ids(), vec![5, 6, 0, 0]);
    assert!(s.capacity() >= s.len());
    assert_eq!(s.slice(1).ids(), vec![6, 0, 0]);
    s.resize(1);
    assert_eq!(s.ids(), vec![5]);
    s.push(9);
    s.clear();
    assert_eq!(s.ids(), vec![0, 0]);
    assert_eq!(LTokenSequence::default().len(), 0);
    assert_eq!(LToken::from_sampled(2, 2), LToken::EndOfStream);
    assert_eq!(LToken::from_sampled(3, 2), LToken::Token(3));
    assert_eq!(LToken::BeginningOfStream.native_value(1, 2), 1);
    assert_eq!(LToken::Token(7).native_value(1, 2), 7);
    assert!(LToken::Token(7).has_str_value());
    assert!(!LToken::EndOfStream.has_str_value());
}

fn defaults() -> ContextDefaults {
    ContextDefaults {
        n_ctx: 512,
        n_gpu_layers: 0,
        seed: -1,
        f16_kv: true,
        logits_all: false,
        vocab_only: false,
        use_mlock: false,
        use_mmap: true,
        embedding: false,
    }
}

#[test]
fn context_configs() {
    let c = LContextConfig::new("m.gguf", &defaults());
    assert_eq!(c.model_path, "m.gguf");
    assert_eq!(c.n_ctx, 512);
    assert_eq!(c.seed, -1);
    assert!(c.use_mmap);
    assert!(c.f16_kv);
    let r = LlmRunner::new().context_config("x.gguf", &defaults(), 77);
    assert_eq!(r.n_ctx, 1024);
    assert_eq!(r.seed, 77);
    assert_eq!(r.model_path, "x.gguf");
    assert!(r.use_mmap);
}
