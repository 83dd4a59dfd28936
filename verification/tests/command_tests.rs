use mcd_cli::call::{order_call_with_items, price_call_with_items, ArgValue, ToolCall};
use mcd_cli::command::{
    plan, resolve_token, resolve_url, AddressAction, Command, CouponAction, MallAction,
    OrderAction, Plan,
};

fn s(t: &str) -> String {
    t.to_string()
}

fn arg<'a>(c: &'a ToolCall, key: &str) -> Option<&'a ArgValue> {
    c.args.iter().find(|(k, _)| k == key).map(|(_, v)| v)
}

fn text(c: &ToolCall, key: &str) -> Option<String> {
    match arg(c, key) {
        Some(ArgValue::Text(t)) => Some(t.clone()),
        _ => None,
    }
}

fn int_arg(c: &ToolCall, key: &str) -> Option<i64> {
    match arg(c, key) {
        Some(ArgValue::Int(i)) => Some(*i),
        _ => None,
    }
}

fn run(p: Result<Plan, mcd_cli::json::InvalidItems>) -> ToolCall {
    match p {
        Ok(Plan::Run(c)) => c,
        _ => panic!("expected a tool call"),
    }
}

#[test]
fn token_priority_is_cli_then_env_then_config() {
    assert_eq!(resolve_token(Some(s("a")), Some(s("b")), Some(s("c"))).ok(), Some(s("a")));
    assert_eq!(resolve_token(None, Some(s("b")), Some(s("c"))).ok(), Some(s("b")));
    assert_eq!(resolve_token(None, None, Some(s("c"))).ok(), Some(s("c")));
    let err = resolve_token(None, None, None).err().expect("no token");
    assert!(err.message().starts_with("错误: 需要提供 MCP Token"));
    assert!(err.message().contains("MCD_MCP_TOKEN"));
}

#[test]
fn saved_url_wins_over_command_line() {
    assert_eq!(resolve_url(Some(s("https://x")), s("https://mcp.mcd.cn")), "https://x");
    assert_eq!(resolve_url(None, s("https://mcp.mcd.cn")), "https://mcp.mcd.cn");
}

#[test]
fn no_command_means_interactive() {
    assert!(matches!(plan(None), Ok(Plan::Interactive)));
    assert!(matches!(plan(Some(Command::Interactive)), Ok(Plan::Interactive)));
    assert!(matches!(plan(Some(Command::Init)), Ok(Plan::Connect)));
    assert!(matches!(plan(Some(Command::Config)), Ok(Plan::ShowConfig)));
    assert!(matches!(
        plan(Some(Command::Address { action: AddressAction::Add })),
        Ok(Plan::AddAddress)
    ));
    match plan(Some(Command::Login { token: s("tok"), url: Some(s("u")) })) {
        Ok(Plan::SaveLogin { token, url }) => {
            assert_eq!(token, "tok");
            assert_eq!(url, Some(s("u")));
        }
        _ => panic!("expected login"),
    }
}

#[test]
fn query_commands_name_their_tools() {
    let cases = [
        (Command::Calendar, "campaign-calendar"),
        (Command::Time, "now-time-info"),
        (Command::Account, "query-my-account"),
        (Command::Coupon { action: CouponAction::My }, "query-my-coupons"),
        (Command::Coupon { action: CouponAction::Available }, "available-coupons"),
        (Command::Coupon { action: CouponAction::Receive }, "auto-bind-coupons"),
        (Command::Mall { action: MallAction::Products }, "mall-points-products"),
    ];
    for (cmd, tool) in cases {
        let c = run(plan(Some(cmd)));
        assert_eq!(c.tool, tool);
        assert!(c.args.is_empty());
    }
    let c = run(plan(Some(Command::Address { action: AddressAction::List { be_type: 2 } })));
    assert_eq!(c.tool, "delivery-query-addresses");
    assert_eq!(int_arg(&c, "beType"), Some(2));
    let c = run(plan(Some(Command::Address { action: AddressAction::List { be_type: 6 } })));
    assert_eq!(c.tool, "delivery-query-addresses");
    assert_eq!(int_arg(&c, "beType"), Some(6));
    assert_eq!(c.args.len(), 1);
}

#[test]
fn nearby_from_readme() {
    let c = run(plan(Some(Command::Nearby {
        be_type: 1,
        search_type: 2,
        city: Some(s("南京市")),
        keyword: Some(s("南京审计大学")),
    })));
    assert_eq!(c.tool, "query-nearby-stores");
    assert_eq!(int_arg(&c, "beType"), Some(1));
    assert_eq!(int_arg(&c, "searchType"), Some(2));
    assert_eq!(text(&c, "city"), Some(s("南京市")));
    assert_eq!(text(&c, "keyword"), Some(s("南京审计大学")));
    let c = run(plan(Some(Command::Nearby { be_type: 2, search_type: 2, city: None, keyword: None })));
    assert_eq!(c.args.len(), 2);
}

#[test]
fn menu_detail_and_coupons_carry_store_fields() {
    let c = run(plan(Some(Command::Menu { store: s("1990366"), be: None, order_type: 1 })));
    assert_eq!(c.tool, "query-meals");
    assert_eq!(text(&c, "storeCode"), Some(s("1990366")));
    assert_eq!(int_arg(&c, "orderType"), Some(1));
    assert!(arg(&c, "beCode").is_none());
    let c = run(plan(Some(Command::Menu { store: s("1960282"), be: Some(s("196028202")), order_type: 2 })));
    assert_eq!(text(&c, "beCode"), Some(s("196028202")));
    let c = run(plan(Some(Command::Detail {
        code: s("9900005462"),
        store: s("1990366"),
        be: None,
        order_type: 2,
    })));
    assert_eq!(c.tool, "query-meal-detail");
    assert_eq!(text(&c, "code"), Some(s("9900005462")));
    let c = run(plan(Some(Command::Coupon {
        action: CouponAction::Store { store: s("1"), be: s("2"), order_type: 2 },
    })));
    assert_eq!(c.tool, "query-store-coupons");
    assert_eq!(text(&c, "beCode"), Some(s("2")));
}

#[test]
fn mall_commands() {
    let c = run(plan(Some(Command::Mall { action: MallAction::Detail { spu_id: 77 } })));
    assert_eq!(c.tool, "mall-product-detail");
    assert_eq!(int_arg(&c, "spuId"), Some(77));
    let c = run(plan(Some(Command::Mall { action: MallAction::Exchange { sku_id: 5, count: 1 } })));
    assert_eq!(c.tool, "mall-create-order");
    assert_eq!(int_arg(&c, "skuId"), Some(5));
    assert_eq!(int_arg(&c, "count"), Some(1));
}

#[test]
fn price_sends_parsed_items() {
    let items = r#"[{"productCode":"9900005462","quantity":1}]"#;
    let c = run(plan(Some(Command::Price { store: s("1990366"), be: None, order_type: 1, items: s(items) })));
    assert_eq!(c.tool, "calculate-price");
    match arg(&c, "items") {
        Some(ArgValue::Json(v)) => {
            assert_eq!(*v, serde_json::from_str::<serde_json::Value>(items).unwrap());
            assert_eq!(v[0]["quantity"], serde_json::Value::from(1));
        }
        _ => panic!("items missing"),
    }
}

#[test]
fn price_refuses_malformed_items() {
    let r = plan(Some(Command::Price { store: s("1"), be: None, order_type: 1, items: s("[{") }));
    let expected = serde_json::from_str::<serde_json::Value>("[{").unwrap_err().to_string();
    match r {
        Err(e) => assert_eq!(e.message, expected),
        Ok(_) => panic!("malformed items accepted"),
    }
}

#[test]
fn pickup_order_drops_delivery_fields() {
    let c = run(plan(Some(Command::Order {
        action: OrderAction::Create {
            store: s("1990366"),
            be: Some(s("be")),
            address: Some(s("addr")),
            items: s(r#"[{"productCode":"9900005462","quantity":1}]"#),
            order_type: 1,
            take_way: Some(s("take-in-store")),
        },
    })));
    assert_eq!(c.tool, "create-order");
    assert!(arg(&c, "beCode").is_none());
    assert!(arg(&c, "addressId").is_none());
    assert_eq!(text(&c, "takeWayCode"), Some(s("take-in-store")));
    let keys: Vec<&str> = c.args.iter().map(|(k, _)| k.as_str()).collect();
    assert_eq!(keys, vec!["storeCode", "items", "orderType", "takeWayCode"]);
}

#[test]
fn delivery_order_keeps_delivery_fields() {
    let c = run(plan(Some(Command::Order {
        action: OrderAction::Create {
            store: s("1960282"),
            be: Some(s("196028202")),
            address: Some(s("A1")),
            items: s(r#"[{"productCode":"903050","quantity":1}]"#),
            order_type: 2,
            take_way: None,
        },
    })));
    let keys: Vec<&str> = c.args.iter().map(|(k, _)| k.as_str()).collect();
    assert_eq!(keys, vec!["storeCode", "items", "orderType", "beCode", "addressId"]);
    assert_eq!(text(&c, "addressId"), Some(s("A1")));
}

#[test]
fn order_refuses_malformed_items() {
    let r = plan(Some(Command::Order {
        action: OrderAction::Create {
            store: s("1"),
            be: None,
            address: None,
            items: s("not json"),
            order_type: 2,
            take_way: None,
        },
    }));
    assert!(r.is_err());
}

#[test]
fn order_query_names_the_order() {
    let c = run(plan(Some(Command::Order { action: OrderAction::Query { id: s("O-1") } })));
    assert_eq!(c.tool, "query-order");
    assert_eq!(text(&c, "orderId"), Some(s("O-1")));
}

#[test]
fn calls_with_read_items_carry_the_document() {
    let doc: serde_json::Value = serde_json::from_str(r#"[{"productCode":"4820","quantity":2}]"#).unwrap();
    let c = price_call_with_items("1990366", Some("b"), 1, doc.clone());
    assert_eq!(c.tool, "calculate-price");
    let keys: Vec<&str> = c.args.iter().map(|(k, _)| k.as_str()).collect();
    assert_eq!(keys, vec!["storeCode", "orderType", "items", "beCode"]);
    match arg(&c, "items") {
        Some(ArgValue::Json(v)) => assert_eq!(*v, doc),
        _ => panic!("items missing"),
    }
    let c = order_call_with_items("1990366", Some("b"), None, doc.clone(), 2, None);
    let keys: Vec<&str> = c.args.iter().map(|(k, _)| k.as_str()).collect();
    assert_eq!(keys, vec!["storeCode", "items", "orderType", "beCode"]);
    let c = order_call_with_items("1990366", Some("b"), Some("a"), doc, 3, None);
    let keys: Vec<&str> = c.args.iter().map(|(k, _)| k.as_str()).collect();
    assert_eq!(keys, vec!["storeCode", "items", "orderType"]);
}
