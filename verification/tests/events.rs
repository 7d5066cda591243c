use soroban_sdk::testutils::Address as _;
use soroban_sdk::{Address, BytesN, Env, Symbol};
use stellar_wrap::events::{event_topics, Event, MintEventType};
use stellar_wrap::storage_types::{StakeConfig, WrapState};

fn is_short_symbol(s: &str) -> bool {
    s.len() <= 9 && s.chars().all(|c| c.is_ascii_alphanumeric() || c == '_')
}

fn sample_events(env: &Env) -> Vec<(Event, &'static str, &'static str)> {
    let a = Address::generate(env);
    let b = Address::generate(env);
    let h = BytesN::from_array(env, &[7u8; 32]);
    let cfg = StakeConfig {
        min_stake: 100,
        cooldown_seconds: 60,
        priority_multiplier_bps: 10,
        max_priority_bps: 500,
    };
    vec![
        (Event::AdminInit(a.clone()), "admin", "init"),
        (Event::AdminUpdated(a.clone(), b.clone()), "admin", "updated"),
        (Event::AdminPaused(a.clone()), "pause", "paused"),
        (Event::AdminUnpaused(a.clone()), "pause", "unpaused"),
        (Event::AdminFeeUpdated(a.clone(), b.clone(), 5), "admin", "fee"),
        (Event::AdminFeeCleared, "admin", "fee_clr"),
        (Event::AdminUpgrade(2, h.clone()), "admin", "upgrade"),
        (Event::BridgeOut(a.clone(), 1, 2, h.clone(), 202401), "bridge", "out"),
        (Event::BridgeRefund(a.clone(), 202401, 3), "bridge", "refund"),
        (Event::BridgeInRej(a.clone(), 1, 2, 202401), "bridge", "in_rej"),
        (Event::BridgeIn(a.clone(), 1, 2, 202401), "bridge", "in"),
        (Event::Burn(a.clone(), 202401), "wrap", "burn"),
        (Event::GovPropose(1, a.clone(), b.clone()), "gov", "propose"),
        (Event::GovVote(1, a.clone(), true), "gov", "vote"),
        (Event::GovExecuted(1, b.clone()), "gov", "executed"),
        (Event::GovDefeated(1), "gov", "defeated"),
        (Event::GovCancelled(1, a.clone()), "gov", "cancelled"),
        (Event::WhitelistRoot(h.clone()), "whitelist", "root"),
        (Event::WhitelistCleared, "whitelist", "cleared"),
        (Event::Mint(a.clone(), 202401, Symbol::new(env, "arch")), "wrap", "mint"),
        (Event::MintTransition(a.clone(), 202401, WrapState::Active), "wrap", "trans"),
        (Event::MintExpire(a.clone(), 202401), "wrap", "expire"),
        (Event::Revoke(a.clone(), 202401, h.clone()), "wrap", "revoke"),
        (Event::StakeAdd(a.clone(), 10), "stake", "add"),
        (Event::StakeInit(a.clone(), 10), "stake", "init"),
        (Event::StakeUnstake(a.clone(), 10), "stake", "unstake"),
        (Event::StakeWithdraw(a.clone(), 10), "stake", "withdraw"),
        (Event::StakeConfig(cfg), "stake", "cfg"),
        (Event::TimelockEnabled(3600), "timelock", "enabled"),
        (Event::TimelockSched(h.clone(), 12345), "timelock", "sched"),
        (Event::TimelockCancel(h.clone()), "timelock", "cancel"),
        (Event::TimelockUpgrade(h.clone()), "timelock", "upgrade"),
        (Event::TimelockExec(h.clone()), "timelock", "exec"),
        (Event::TransferBackfill(a.clone(), 4), "transfer", "backfill"),
        (Event::Transfer(a.clone(), b.clone(), 202401, Some((a.clone(), b.clone(), 9))), "transfer", "transfer"),
        (Event::Transfer(a, b, 202401, None), "transfer", "transfer"),
    ]
}

#[test]
fn every_event_is_published_under_its_domain_and_action() {
    let env = Env::default();
    for (event, domain, action) in sample_events(&env) {
        assert_eq!(event_topics(&event), ("v1", domain, action));
    }
}

#[test]
fn every_topic_is_a_short_symbol() {
    let env = Env::default();
    for (event, _, _) in sample_events(&env) {
        let (version, domain, action) = event_topics(&event);
        assert!(is_short_symbol(version));
        assert!(is_short_symbol(domain));
        assert!(is_short_symbol(action));
    }
}

#[test]
fn topic_pairs_tell_the_events_apart() {
    let env = Env::default();
    let events = sample_events(&env);
    let pairs: Vec<(&str, &str)> = events[..events.len() - 1]
        .iter()
        .map(|(e, _, _)| {
            let t = event_topics(e);
            (t.1, t.2)
        })
        .collect();
    for i in 0..pairs.len() {
        for j in (i + 1)..pairs.len() {
            assert_ne!(pairs[i], pairs[j]);
        }
    }
}

#[test]
fn mint_event_type_symbols() {
    assert_eq!(MintEventType::Mint.to_symbol(), "Mint");
    assert_eq!(MintEventType::Transition.to_symbol(), "Transit");
    assert_eq!(MintEventType::Expire.to_symbol(), "Expire");
    for k in [MintEventType::Mint, MintEventType::Transition, MintEventType::Expire] {
        assert!(is_short_symbol(k.to_symbol()));
    }
}

#[test]
fn pause_and_unpause_are_told_apart_by_topic() {
    let env = Env::default();
    let admin = Address::generate(&env);
    let paused = event_topics(&Event::AdminPaused(admin.clone()));
    let unpaused = event_topics(&Event::AdminUnpaused(admin));
    assert_eq!(paused, ("v1", "pause", "paused"));
    assert_eq!(unpaused, ("v1", "pause", "unpaused"));
    assert_ne!(paused, unpaused);
}
