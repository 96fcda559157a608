use map_flipper::chat::is_afk_teleport;
use map_flipper::chat::normalize_text;
use map_flipper::chat::parse_sale_message;
use map_flipper::config::Config;
use map_flipper::config::WebhookConfig;
use map_flipper::config::WebhookEvents;
use map_flipper::config::default_delay_between_cycles;
use map_flipper::config::default_host;
use map_flipper::config::default_max_buy_price;
use map_flipper::config::default_max_listings_per_cycle;
use map_flipper::config::default_port;
use map_flipper::config::default_sell_price;
use map_flipper::config::default_window_timeout;
use map_flipper::listing::ListingVerdict;
use map_flipper::listing::classify_listing;
use map_flipper::listing::collect_map_stacks;
use map_flipper::listing::listing_plan;
use map_flipper::listing::listing_succeeded;
use map_flipper::listing::make_listing_job;
use map_flipper::orchestrator::CycleEvent;
use map_flipper::orchestrator::CycleState;
use map_flipper::orchestrator::FlowError;
use map_flipper::orchestrator::backoff_delay_ms;
use map_flipper::orchestrator::newly_acquired;
use map_flipper::orchestrator::next_state;
use map_flipper::purchase::CONFIRM_SLOT;
use map_flipper::purchase::PurchaseStep;
use map_flipper::purchase::purchase_decision;
use map_flipper::scanner::MenuKind;
use map_flipper::session::ContainerHandle;
use map_flipper::session::SessionTracker;
use map_flipper::session::open_result;
use map_flipper::scanner::container_slot_count;
use map_flipper::scanner::find_cheap_maps;
use map_flipper::slots::ItemSlot;
use map_flipper::slots::get_map_slots;
use map_flipper::stacking::SplitOutcome;
use map_flipper::stacking::UnstackAction;
use map_flipper::stacking::classify_split;
use map_flipper::stacking::first_empty_storage_slot;
use map_flipper::stacking::first_stacked_map;
use map_flipper::stacking::unstack_step;
use map_flipper::ticks::ms_to_ticks;
use map_flipper::webhook::EventKind;
use map_flipper::webhook::capitalize_first;
use map_flipper::webhook::event_enabled;
use map_flipper::webhook::should_send;
use map_flipper::webhook::webhook_title;

fn priced_slot(price_line: &str) -> ItemSlot {
    ItemSlot::stack("filled_map".to_string(), 1, vec![price_line.to_string()])
}

#[test]
fn scanner_returns_lowest_index_not_cheapest() {
    // slot 3 priced $2000, slot 7 priced $1000, ceiling $2500
    let mut slots = Vec::new();
    for _ in 0..3 {
        slots.push(ItemSlot::empty());
    }
    slots.push(priced_slot("Price: $2000"));
    for _ in 4..7 {
        slots.push(ItemSlot::empty());
    }
    slots.push(priced_slot("Price: $1000"));
    for _ in 8..27 {
        slots.push(ItemSlot::empty());
    }
    let found = find_cheap_maps(&slots, 27, 2500).expect("a qualifying slot");
    assert_eq!(found.slot, 3);
    assert_eq!(found.price, 2000);
}

#[test]
fn scanner_skips_unparsable_and_pricey_slots() {
    let mut slots = Vec::new();
    slots.push(priced_slot("no labels at all"));
    slots.push(priced_slot("Price: $9000"));
    slots.push(priced_slot("Price: $1500"));
    let found = find_cheap_maps(&slots, 27, 2500).expect("a qualifying slot");
    assert_eq!(found.slot, 2);
    assert_eq!(found.price, 1500);
    assert_eq!(found.seller, "unknown");
}

#[test]
fn scanner_ignores_slots_past_container_range() {
    let mut slots = Vec::new();
    slots.push(ItemSlot::empty());
    slots.push(priced_slot("Price: $100"));
    // the cheap listing sits outside the container's own range
    assert!(find_cheap_maps(&slots, 1, 2500).is_none());
}

#[test]
fn delta_of_before_and_after_snapshots() {
    let before = vec![2usize, 5];
    let after = vec![2usize, 5, 9];
    assert_eq!(newly_acquired(&before, &after), vec![9usize]);
}

#[test]
fn delta_keeps_order_and_drops_pre_existing() {
    let before = vec![7usize, 3];
    let after = vec![1usize, 3, 8, 7, 10];
    assert_eq!(newly_acquired(&before, &after), vec![1usize, 8, 10]);
    assert_eq!(newly_acquired(&Vec::new(), &after), after);
    assert_eq!(newly_acquired(&after, &after), Vec::<usize>::new());
}

#[test]
fn plan_caps_listing_attempts_per_cycle() {
    let candidates = vec![10usize, 11, 12, 13, 14];
    let plan = listing_plan(&candidates, 3);
    assert_eq!(plan, vec![10usize, 11, 12]);
    assert!(plan.len() <= 3);
    // fewer candidates than the cap: all attempted
    assert_eq!(listing_plan(&candidates, 20), candidates);
    assert_eq!(listing_plan(&candidates, 0), Vec::<usize>::new());
}

#[test]
fn timeout_is_recoverable_and_cycle_goes_on() {
    // a container-open timeout during any step aborts to cooldown...
    for state in [
        CycleState::Idle,
        CycleState::Scanning,
        CycleState::Purchasing,
        CycleState::Listing,
    ] {
        let after = next_state(&state, &CycleEvent::Failed(FlowError::Timeout));
        assert_eq!(after, CycleState::Cooldown);
    }
    // ...and from cooldown the machine returns to idle and the next scan
    let idle = next_state(&CycleState::Cooldown, &CycleEvent::CooldownOver);
    assert_eq!(idle, CycleState::Idle);
    let scanning = next_state(&idle, &CycleEvent::Tick);
    assert_eq!(scanning, CycleState::Scanning);
}

#[test]
fn cycle_transitions_follow_the_design() {
    let s = CycleState::Idle;
    let s = next_state(&s, &CycleEvent::Tick);
    assert_eq!(s, CycleState::Scanning);
    let s = next_state(&s, &CycleEvent::ScanFound);
    assert_eq!(s, CycleState::Purchasing);
    let s = next_state(&s, &CycleEvent::PurchaseSucceeded);
    assert_eq!(s, CycleState::Listing);
    let s = next_state(&s, &CycleEvent::ListingDone);
    assert_eq!(s, CycleState::Cooldown);

    assert_eq!(
        next_state(&CycleState::Scanning, &CycleEvent::ScanEmpty),
        CycleState::Cooldown
    );
    assert_eq!(
        next_state(&CycleState::Purchasing, &CycleEvent::PurchaseFailed),
        CycleState::Cooldown
    );
    assert_eq!(
        next_state(&CycleState::Listing, &CycleEvent::UnexpectedFailure),
        CycleState::ErrorBackoff
    );
    assert_eq!(
        next_state(&CycleState::ErrorBackoff, &CycleEvent::BackoffOver),
        CycleState::Idle
    );
}

#[test]
fn error_taxonomy_transitions() {
    // continuing errors leave the state alone
    for err in [
        FlowError::ProtocolMismatch,
        FlowError::VerificationFailure,
        FlowError::ParseFailure,
    ] {
        assert_eq!(
            next_state(&CycleState::Listing, &CycleEvent::Failed(err)),
            CycleState::Listing
        );
    }
    // cycle-fatal errors abort to cooldown
    assert_eq!(
        next_state(&CycleState::Listing, &CycleEvent::Failed(FlowError::ResourceExhausted)),
        CycleState::Cooldown
    );
}

#[test]
fn backoff_enforces_floor() {
    assert_eq!(backoff_delay_ms(1000), 3000);
    assert_eq!(backoff_delay_ms(3000), 3000);
    assert_eq!(backoff_delay_ms(5000), 5000);
}

#[test]
fn purchase_decision_on_open_and_timeout() {
    assert_eq!(purchase_decision(4, None), PurchaseStep::TimedOut);
    assert_eq!(
        purchase_decision(4, Some(5)),
        PurchaseStep::Confirm { container_id: 5, id_changed: true }
    );
    assert_eq!(
        purchase_decision(4, Some(4)),
        PurchaseStep::Confirm { container_id: 4, id_changed: false }
    );
    assert_eq!(CONFIRM_SLOT, 15);
}

#[test]
fn unstack_decisions() {
    // a stacked map at slot 1, an empty storage slot at 9
    let mut slots = Vec::new();
    slots.push(ItemSlot::empty());
    slots.push(ItemSlot::stack("filled_map".to_string(), 10, Vec::new()));
    for _ in 2..9 {
        slots.push(ItemSlot::stack("stone".to_string(), 1, Vec::new()));
    }
    slots.push(ItemSlot::empty());
    assert_eq!(first_stacked_map(&slots), Some((1, 10)));
    assert_eq!(first_empty_storage_slot(&slots), Some(9));
    assert_eq!(
        unstack_step(&slots),
        UnstackAction::Split { stack_slot: 1, stack_count: 10, target_slot: 9 }
    );

    // all singles
    let singles = vec![ItemSlot::stack("filled_map".to_string(), 1, Vec::new())];
    assert_eq!(unstack_step(&singles), UnstackAction::AllSingles);

    // stacked but no storage slot free
    let mut full = Vec::new();
    full.push(ItemSlot::stack("filled_map".to_string(), 2, Vec::new()));
    for _ in 1..45 {
        full.push(ItemSlot::stack("stone".to_string(), 1, Vec::new()));
    }
    assert_eq!(unstack_step(&full), UnstackAction::InventoryFull { stack_slot: 0 });
}

#[test]
fn split_outcomes() {
    assert_eq!(classify_split(10, 10), SplitOutcome::Unchanged);
    assert_eq!(classify_split(10, 12), SplitOutcome::Increased);
    assert_eq!(classify_split(10, 5), SplitOutcome::Reduced);
}

#[test]
fn listing_verdicts() {
    let empty = ItemSlot::empty();
    assert_eq!(classify_listing(5, &empty), ListingVerdict::Emptied);
    assert!(listing_succeeded(&classify_listing(5, &empty)));

    let fewer = ItemSlot::stack("filled_map".to_string(), 3, Vec::new());
    assert_eq!(classify_listing(5, &fewer), ListingVerdict::Partial { remaining: 3 });
    assert!(listing_succeeded(&classify_listing(5, &fewer)));

    let same = ItemSlot::stack("filled_map".to_string(), 5, Vec::new());
    assert_eq!(classify_listing(5, &same), ListingVerdict::Unchanged);
    assert!(!listing_succeeded(&classify_listing(5, &same)));

    let other = ItemSlot::stack("stone".to_string(), 5, Vec::new());
    assert_eq!(classify_listing(5, &other), ListingVerdict::OtherItem);
    assert!(listing_succeeded(&classify_listing(5, &other)));
}

#[test]
fn listing_job_carries_discounted_price() {
    let job = make_listing_job(12, 64, 9900);
    assert_eq!(job.source_slot, 12);
    assert_eq!(job.stack_count, 64);
    assert_eq!(job.unit_price, 9900);
    assert_eq!(job.listing_price, 316800);
}

#[test]
fn map_slot_snapshots() {
    let mut slots = Vec::new();
    slots.push(ItemSlot::stack("filled_map".to_string(), 2, Vec::new()));
    slots.push(ItemSlot::stack("stone".to_string(), 1, Vec::new()));
    slots.push(ItemSlot::empty());
    slots.push(ItemSlot::stack("Map".to_string(), 1, Vec::new()));
    assert_eq!(get_map_slots(&slots), vec![0usize, 3]);
    assert_eq!(collect_map_stacks(&slots), vec![(0usize, 2u32), (3usize, 1u32)]);
}

#[test]
fn open_timeout_is_the_recoverable_error() {
    match open_result(None) {
        Err(e) => assert_eq!(e, FlowError::Timeout),
        Ok(_) => panic!("a timeout must not yield a handle"),
    }
    let handle = ContainerHandle { id: 7, slots: vec![ItemSlot::empty()] };
    match open_result(Some(handle)) {
        Ok(h) => {
            assert_eq!(h.id, 7);
            assert_eq!(h.slots.len(), 1);
        }
        Err(_) => panic!("an open container must yield its handle"),
    }
}

#[test]
fn session_authority_is_exclusive_and_single_use() {
    let mut session = SessionTracker::new();
    assert!(!session.is_current(1));
    session.note_open(1);
    assert!(session.is_current(1));
    // a newer open supersedes the earlier identifier
    session.note_open(2);
    assert!(!session.is_current(1));
    assert!(session.is_current(2));
    session.note_close();
    assert!(!session.is_current(2));
}

#[test]
fn container_capacities() {
    assert_eq!(container_slot_count(&MenuKind::Generic9x1), Some(9));
    assert_eq!(container_slot_count(&MenuKind::Generic9x6), Some(54));
    assert_eq!(container_slot_count(&MenuKind::Other), None);
}

#[test]
fn tick_conversion_rounds_up() {
    assert_eq!(ms_to_ticks(15000), 300);
    assert_eq!(ms_to_ticks(15001), 301);
    assert_eq!(ms_to_ticks(1), 1);
    assert_eq!(ms_to_ticks(0), 0);
    assert_eq!(ms_to_ticks(50), 1);
}

#[test]
fn normalize_folds_small_caps_and_case() {
    assert_eq!(normalize_text("\u{1d00}\u{299}\u{1d04}"), "abc");
    assert_eq!(normalize_text("Teleported TO"), "teleported to");
}

#[test]
fn afk_teleport_detection() {
    assert!(is_afk_teleport("You were Teleported to the AFK zone"));
    assert!(is_afk_teleport(
        "\u{1d1b}\u{1d07}\u{29f}\u{1d07}\u{1d18}\u{1d0f}\u{280}\u{1d1b}\u{1d07}\u{1d05} \u{1d1b}\u{1d0f} \u{1d00}\u{a730}\u{1d0b}"
    ));
    assert!(!is_afk_teleport("Teleported to spawn"));
    assert!(!is_afk_teleport("afk detected"));
}

#[test]
fn sale_message_parsing() {
    let r = parse_sale_message("Alice bought your Map for $2,500").expect("a sale");
    assert_eq!(r.0, "Alice");
    assert_eq!(r.1, 2500);

    let r = parse_sale_message("Bob Smith bought your Map for $2.5K!").expect("a sale");
    assert_eq!(r.0, "Bob Smith");
    assert_eq!(r.1, 2500);

    assert!(parse_sale_message("Alice sold a Map").is_none());
    assert!(parse_sale_message("bought your Map for $100").is_none());
}

#[test]
fn webhook_event_gating() {
    let mut events = WebhookEvents::default();
    assert!(event_enabled(&events, &EventKind::Purchase));
    events.purchase = false;
    assert!(!event_enabled(&events, &EventKind::Purchase));
    assert!(event_enabled(&events, &EventKind::Shards));

    let mut cfg = WebhookConfig::default();
    assert!(!should_send(&cfg, &EventKind::Sale));
    cfg.enabled = true;
    assert!(!should_send(&cfg, &EventKind::Sale), "empty endpoint sends nothing");
    cfg.url = "https://example.invalid/hook".to_string();
    assert!(should_send(&cfg, &EventKind::Sale));
    cfg.events.sale = false;
    assert!(!should_send(&cfg, &EventKind::Sale));
}

#[test]
fn webhook_titles() {
    assert_eq!(capitalize_first("purchase"), "Purchase");
    assert_eq!(capitalize_first(""), "");
    assert_eq!(webhook_title(&EventKind::Sale), "Sale Event");
    assert_eq!(webhook_title(&EventKind::Startup), "Startup Event");
}

#[test]
fn config_defaults() {
    assert_eq!(default_host(), "donutsmp.net");
    assert_eq!(default_port(), 25565);
    assert_eq!(default_max_buy_price(), 2500);
    assert_eq!(default_sell_price(), "9.9k");
    assert_eq!(default_max_listings_per_cycle(), 20);
    assert_eq!(default_delay_between_cycles(), 5000);
    assert_eq!(default_window_timeout(), 15000);

    let cfg = Config {
        host: default_host(),
        port: default_port(),
        username: "bot".to_string(),
        auth: "offline".to_string(),
        version: "1.21.11".to_string(),
        max_buy_price: default_max_buy_price(),
        sell_price: default_sell_price(),
        max_listings_per_cycle: default_max_listings_per_cycle(),
        delay_between_cycles: default_delay_between_cycles(),
        delay_after_join: 5000,
        window_timeout: default_window_timeout(),
        debug_events: false,
        webhook: WebhookConfig::default(),
    };
    assert_eq!(ms_to_ticks(cfg.window_timeout), 300);
}
