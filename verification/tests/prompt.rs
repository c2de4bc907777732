use predict_agent::cmd::prompt;
use predict_agent::cmd::prompt::{Briefing, CandleText, Prices};
use predict_agent::json;
use predict_agent::json::{Json, JsonNumber};

fn list(s: &str) -> Vec<Json> {
    match json::parse(s) {
        Some(Json::Array(l)) => l,
        _ => panic!("no list"),
    }
}

fn briefing(market: &str) -> Briefing {
    Briefing {
        market_id: "m1".to_string(),
        market: json::parse(market).unwrap(),
        klines: None,
        markets: vec![],
        persona: "none".to_string(),
        submissions_remaining: 2,
        open_orders: None,
        recent_results: None,
    }
}

fn prices() -> Prices {
    Prices { up: "0.70".to_string(), down: "0.30".to_string() }
}

#[test]
fn the_whole_prompt() {
    let mut b = briefing(
        "{\"asset\":\"ETH/USDT\",\"window\":\"30m\",\"closes_in_seconds\":600,\"implied_up_prob\":0.7,\
          \"reason\":\"quiet\",\"suggested_side\":\"down\",\
          \"orderbook\":{\"up_filled\":1,\"up_open\":2,\"down_filled\":3}}",
    );
    b.persona = "quant_trader".to_string();
    b.klines = Some(list("[{\"open_time\":5,\"open\":1.5,\"volume\":10}, 3]"));
    b.markets = list("[{\"market_id\":\"m1\"},{\"id\":\"m2\",\"asset\":\"BTC\",\"window\":\"15m\",\"score\":-1,\"suggested_side\":\"up\",\"reason\":\"why\"}]");
    b.open_orders = Some(list("[{\"asset\":\"BTC\",\"window\":\"1h\",\"direction\":\"up\",\"tickets\":5,\"tickets_filled\":2,\"close_at\":\"noon\"}]"));
    b.recent_results = Some(list("[{\"asset\":\"BTC\",\"window\":\"1h\",\"direction\":\"down\",\"won\":true,\"payout_chips\":9,\"chips_spent\":4},{}]"));
    let candles = vec![CandleText {
        open: Some("1.50".to_string()),
        high: None,
        low: None,
        close: None,
        volume: Some("10".to_string()),
    }];
    let p = prompt::build_prompt(&b, "1234", &prices(), &candles);
    let head = "You are a prediction agent competing in AWP Predict WorkNet (persona: quant_trader).\n\n\
                ## Game Rules\n\nYou are playing a prediction market game against other AI agents.";
    assert!(p.starts_with(head), "{}", p);
    let tail = "- \"tickets\": how many chips to commit (integer, ≥1)\n\
- \"market_id\": which market (default: \"m1\")\n\n\
Output ONLY the JSON. No markdown fences, no text outside the JSON.\n\n\
## Your Current State\n\n\
- Balance: 1234 chips\n\
- Submissions remaining this timeslot: 2/3\n\
- Available markets: 2\n\
\n**Your open positions (1):**\n\
- BTC 1h UP — 5 tickets (filled 2), closes noon\n\
\n**Recent results (last 2, 1 wins):**\n\
- BTC 1h DOWN — WON (payout: 9, spent: 4)\n\
- ? ? ? — LOST (payout: 0, spent: 0)\n\
\n## Recommended Market\n\n\
- ID: m1\n\
- Asset: ETH/USDT\n\
- Window: 30m\n\
- Closes in: 600s\n\
- implied_up_prob: 0.70\n\
- Server insight: quiet\n\
- Liquidity favors: DOWN (counterparty orders waiting)\n\
- Orderbook: UP filled=1 open=2, DOWN filled=3 open=0\n  → Buying UP costs 0.70, profit if correct: 0.30. Buying DOWN costs 0.30, profit if correct: 0.70.\n\
\n## Klines (2 candles)\n\n\
time | open | high | low | close | volume\n\
--- | --- | --- | --- | --- | ---\n\
5 | 1.50 |  |  |  | 10\n\
\n## Other Markets (server-ranked)\n\n\
- m2 (BTC 15m) score=-1 suggested=up — why\n\
\nYou may choose a different market by setting \"market_id\" in your response.\n\n";
    assert!(p.ends_with(tail), "{}", p);
}

#[test]
fn the_rules_of_the_game_are_told() {
    let p = prompt::build_prompt(&briefing("{}"), "0", &prices(), &vec![]);
    assert!(p.contains("- When you buy DOWN at price 0.70 (meaning implied_up=0.70), you pay 0.30 per ticket. If DOWN wins, you get 1.00 (profit 0.70). If UP wins, you lose 0.30.\n"));
    assert!(p.contains("\n\n**Constraints:**\n- 3 submissions per 15-minute timeslot. Use all 3 for participation, but pick the best opportunities.\n- You can choose ANY market from the available list, not just the recommended one.\n\n## Your Response\n\nOutput a JSON object with these fields:\n- \"direction\": \"up\" or \"down\" — your prediction\n"));
}

#[test]
fn what_is_missing_has_defaults() {
    let p = prompt::build_prompt(&briefing("{\"suggested_side\":\"skip\"}"), "0", &prices(), &vec![]);
    assert!(p.starts_with("You are a prediction agent competing in AWP Predict WorkNet.\n\n## Game Rules"));
    assert!(p.ends_with(
        "- Available markets: 0\n\n## Recommended Market\n\n- ID: m1\n- Asset: BTC/USDT\n- Window: 15m\n- Closes in: 0s\n- implied_up_prob: 0.70\n  → Fair odds (0.50/0.50). Your edge comes purely from analysis.\n\n## Klines\n\nNo kline data available. Use market data and general market awareness.\n\n"
    ));
}

#[test]
fn an_empty_history_is_none() {
    let mut b = briefing("{}");
    b.klines = Some(vec![]);
    b.open_orders = Some(vec![]);
    b.recent_results = Some(vec![]);
    let without = prompt::build_prompt(&briefing("{}"), "0", &prices(), &vec![]);
    assert_eq!(prompt::build_prompt(&b, "0", &prices(), &vec![]), without);
}

#[test]
fn estimates_of_the_market() {
    let e = |s: &str| prompt::implied_up(&json::parse(s).unwrap());
    assert_eq!(e("{}"), None);
    assert_eq!(e("{\"implied_up_prob\":0.25}"), Some(JsonNumber::Float(0.25f64.to_bits())));
    assert_eq!(
        e("{\"orderbook\":{\"implied_up_prob\":0.75}}"),
        Some(JsonNumber::Float(0.75f64.to_bits()))
    );
    assert_eq!(e("{\"implied_up_prob\":\"x\",\"orderbook\":{\"implied_up_prob\":0.75}}"), None);
    assert_eq!(e("{\"implied_up_prob\":1}"), Some(JsonNumber::Unsigned(1)));
}

#[test]
fn fair_odds_only_at_one_half() {
    let p = |m: &str| prompt::build_prompt(&briefing(m), "0", &prices(), &vec![]);
    assert!(p("{\"implied_up_prob\":0.5}").contains("Fair odds"));
    assert!(!p("{\"implied_up_prob\":0.51}").contains("Fair odds"));
    assert!(!p("{\"implied_up_prob\":0}").contains("Fair odds"));
}

#[test]
fn twenty_candles_at_most() {
    let mut l = vec![Json::Null];
    for i in 0..25u64 {
        l.push(Json::object().with("open_time", Json::unsigned(i)));
    }
    l.push(Json::unsigned(7));
    let shown = prompt::candles(&Some(l));
    assert_eq!(shown.len(), 19);
    assert_eq!(shown[0].open_time, 6);
    assert_eq!(shown[18].open_time, 24);
    assert_eq!(shown[0].open, None);
    assert!(prompt::candles(&None).is_empty());
}

#[test]
fn lists_are_cut() {
    let mut b = briefing("{}");
    b.open_orders = Some(vec![Json::object(); 12]);
    b.recent_results = Some(vec![Json::object(); 7]);
    b.markets = vec![Json::object(); 11];
    let p = prompt::build_prompt(&b, "0", &prices(), &vec![]);
    assert!(p.contains("open positions (12):**"));
    assert_eq!(p.matches("- ? ? ? — 0 tickets").count(), 10);
    assert!(p.contains("(last 7, 0 wins)"));
    assert_eq!(p.matches("- ? ? ? — LOST").count(), 5);
    assert_eq!(p.matches("- ? (? ?) score=0 suggested=? — \n").count(), 8);
}
