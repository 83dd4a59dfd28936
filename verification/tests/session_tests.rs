use mcd_cli::call::{ArgValue, ToolCall};
use mcd_cli::session::{Action, Dialog, Effect, Event};

fn lines(a: &Action) -> Vec<String> {
    a.out.iter().map(|n| n.line()).collect()
}

fn asked(a: &Action) -> String {
    match &a.effect {
        Effect::Ask(p) => p.clone(),
        _ => panic!("expected a question"),
    }
}

fn call(a: &Action) -> &ToolCall {
    match &a.effect {
        Effect::Run(c) => c,
        _ => panic!("expected a tool call"),
    }
}

fn arg<'a>(c: &'a ToolCall, key: &str) -> Option<&'a ArgValue> {
    c.args.iter().find(|(k, _)| k == key).map(|(_, v)| v)
}

fn text(c: &ToolCall, key: &str) -> Option<String> {
    match arg(c, key) {
        Some(ArgValue::Text(t)) => Some(t.clone()),
        _ => None,
    }
}

fn int_arg(c: &ToolCall, key: &str) -> Option<i64> {
    match arg(c, key) {
        Some(ArgValue::Int(i)) => Some(*i),
        _ => None,
    }
}

fn step(d: Dialog, e: Event) -> (Dialog, Action) {
    assert!(d.accepts(&e));
    d.step(e)
}

fn type_line(d: Dialog, s: &str) -> (Dialog, Action) {
    step(d, Event::Line(format!("{}\n", s)))
}

fn is_menu(a: &Action) -> bool {
    let l = lines(a);
    l.len() >= 19
        && l[l.len() - 19] == "-".repeat(50)
        && l[l.len() - 18] == "🍟 麦当劳 CLI 交互模式"
        && l[l.len() - 2] == "0.  退出"
        && asked(a) == "请输入选项: "
}

#[test]
fn session_starts_with_the_menu() {
    let (d, a) = Dialog::start();
    assert!(is_menu(&a));
    assert_eq!(lines(&a).len(), 19);
    assert!(!d.is_over());
    assert!(!d.accepts(&Event::Succeeded));
}

#[test]
fn quit_words_end_the_session() {
    for w in ["0", "q", "quit", " exit "] {
        let (d, _) = Dialog::start();
        let (d, a) = type_line(d, w);
        assert_eq!(lines(&a), vec!["再见，祝您用餐愉快! 🍔".to_string()]);
        assert!(matches!(a.effect, Effect::Exit));
        assert!(d.is_over());
        assert!(!d.accepts(&Event::Line("1".to_string())));
    }
}

#[test]
fn unknown_choice_repeats_the_menu() {
    let (d, _) = Dialog::start();
    let (d, a) = type_line(d, "15");
    assert_eq!(lines(&a)[0], "无效选项，请重新输入");
    assert!(is_menu(&a));
    assert!(!d.is_over());
}

#[test]
fn read_failure_at_the_menu_aborts() {
    let (d, _) = Dialog::start();
    let (d, a) = step(d, Event::ReadFailed("stdin closed".to_string()));
    match a.effect {
        Effect::Abort(m) => assert_eq!(m, "stdin closed"),
        _ => panic!("expected abort"),
    }
    assert!(d.is_over());
}

#[test]
fn connection_test_reports_failure() {
    let (d, _) = Dialog::start();
    let (d, a) = type_line(d, "1");
    assert!(matches!(a.effect, Effect::Connect));
    assert!(d.accepts(&Event::Failed("x".to_string())));
    assert!(!d.accepts(&Event::Line("x".to_string())));
    let (_, a) = step(d, Event::Failed("timeout".to_string()));
    assert_eq!(lines(&a)[0], "❌ 连接失败: timeout");
    assert!(is_menu(&a));
}

#[test]
fn address_list_asks_for_mcdelivery() {
    let (d, _) = Dialog::start();
    let (_, a) = type_line(d, "6");
    let c = call(&a);
    assert_eq!(c.tool, "delivery-query-addresses");
    assert_eq!(int_arg(c, "beType"), Some(2));
}

#[test]
fn calendar_then_back_to_menu() {
    let (d, _) = Dialog::start();
    let (d, a) = type_line(d, "2");
    assert_eq!(call(&a).tool, "campaign-calendar");
    let (_, a) = step(d, Event::Succeeded);
    assert_eq!(lines(&a).len(), 19);
    assert!(is_menu(&a));
}

#[test]
fn nearby_asks_city_and_keyword() {
    let (d, _) = Dialog::start();
    let (d, a) = type_line(d, "5");
    assert_eq!(asked(&a), "城市名: ");
    let (d, a) = type_line(d, " 南京市 ");
    assert_eq!(asked(&a), "关键词（商圈/学校/路名）: ");
    let (d, a) = type_line(d, "南京审计大学");
    let c = call(&a);
    assert_eq!(c.tool, "query-nearby-stores");
    assert_eq!(int_arg(c, "beType"), Some(1));
    assert_eq!(int_arg(c, "searchType"), Some(2));
    assert_eq!(text(c, "city"), Some("南京市".to_string()));
    assert_eq!(text(c, "keyword"), Some("南京审计大学".to_string()));
    let (_, a) = step(d, Event::Failed("503".to_string()));
    assert_eq!(lines(&a)[0], "❌ 查询失败: 503");
}

#[test]
fn menu_defaults_to_delivery_for_unreadable_order_type() {
    let (d, _) = Dialog::start();
    let (d, _) = type_line(d, "8");
    let (d, a) = type_line(d, "1990366");
    assert_eq!(asked(&a), "门店 beCode（到店取餐回车跳过）: ");
    let (d, a) = type_line(d, "");
    assert_eq!(asked(&a), "订单类型 (1=到店, 2=外送): ");
    let (_, a) = type_line(d, "到店");
    let c = call(&a);
    assert_eq!(c.tool, "query-meals");
    assert_eq!(int_arg(c, "orderType"), Some(2));
    assert!(arg(c, "beCode").is_none());
}

#[test]
fn skipped_question_survives_a_read_failure() {
    let (d, _) = Dialog::start();
    let (d, _) = type_line(d, "9");
    let (d, _) = type_line(d, "9900005462");
    let (d, _) = type_line(d, "1990366");
    let (d, a) = step(d, Event::ReadFailed("eof".to_string()));
    assert_eq!(asked(&a), "订单类型 (1=到店, 2=外送): ");
    let (_, a) = type_line(d, "1");
    let c = call(&a);
    assert_eq!(c.tool, "query-meal-detail");
    assert_eq!(text(c, "code"), Some("9900005462".to_string()));
    assert_eq!(int_arg(c, "orderType"), Some(1));
}

#[test]
fn required_read_failure_aborts_outside_address_entry() {
    let (d, _) = Dialog::start();
    let (d, _) = type_line(d, "14");
    let (d, a) = step(d, Event::ReadFailed("broken pipe".to_string()));
    assert!(matches!(a.effect, Effect::Abort(_)));
    assert!(d.is_over());
}

#[test]
fn address_entry_reports_a_failed_read() {
    let (d, _) = Dialog::start();
    let (d, a) = type_line(d, "7");
    assert_eq!(lines(&a), vec!["请输入配送地址信息（麦乐送 beType=2）:".to_string()]);
    assert_eq!(asked(&a), "城市名称: ");
    let (d, _) = type_line(d, "南京市");
    let (d, a) = step(d, Event::ReadFailed("io".to_string()));
    assert_eq!(lines(&a)[0], "❌ 添加失败: io");
    assert!(is_menu(&a));
    assert!(!d.is_over());
}

#[test]
fn address_entry_creates_the_address() {
    let (d, _) = Dialog::start();
    let (mut d, _) = type_line(d, "7");
    for v in ["南京市", "张三", "13800000000", "某小区3栋", "101"] {
        let (nd, _) = type_line(d, v);
        d = nd;
    }
    let (_, a) = type_line(d, "  ");
    let c = call(&a);
    assert_eq!(c.tool, "delivery-create-address");
    assert_eq!(text(c, "contactName"), Some("张三".to_string()));
    assert_eq!(text(c, "addressDetail"), Some("101".to_string()));
    assert_eq!(int_arg(c, "beType"), Some(2));
    assert!(arg(c, "gender").is_none());
    let keys: Vec<&str> = c.args.iter().map(|(k, _)| k.as_str()).collect();
    assert_eq!(keys, vec!["city", "contactName", "phone", "address", "addressDetail", "beType"]);
}

#[test]
fn coupon_menu_choices() {
    let (d, _) = Dialog::start();
    let (d, a) = type_line(d, "11");
    assert_eq!(lines(&a), vec!["a. 我的优惠券", "b. 可领优惠券列表", "c. 一键领券"]);
    assert_eq!(asked(&a), "选择: ");
    let (d, a) = type_line(d, "c");
    assert_eq!(call(&a).tool, "auto-bind-coupons");
    let (d, a) = step(d, Event::Failed("x".to_string()));
    assert_eq!(lines(&a)[0], "❌ 领券失败: x");
    let (d, _) = type_line(d, "11");
    let (_, a) = type_line(d, "d");
    assert_eq!(lines(&a)[0], "无效选择");
    assert!(is_menu(&a));
}

#[test]
fn mall_exchange_uses_defaults() {
    let (d, _) = Dialog::start();
    let (d, _) = type_line(d, "12");
    let (d, a) = type_line(d, "c");
    assert_eq!(asked(&a), "商品 skuId: ");
    let (d, a) = type_line(d, "sku");
    assert_eq!(asked(&a), "兑换数量（默认1）: ");
    let (d, a) = type_line(d, "");
    let c = call(&a);
    assert_eq!(c.tool, "mall-create-order");
    assert_eq!(int_arg(c, "skuId"), Some(0));
    assert_eq!(int_arg(c, "count"), Some(1));
    let (_, a) = step(d, Event::Failed("no points".to_string()));
    assert_eq!(lines(&a)[0], "❌ 兑换失败: no points");
}

#[test]
fn mall_detail_parses_the_id() {
    let (d, _) = Dialog::start();
    let (d, _) = type_line(d, "12");
    let (d, _) = type_line(d, "b");
    let (_, a) = type_line(d, "42");
    let c = call(&a);
    assert_eq!(c.tool, "mall-product-detail");
    assert_eq!(int_arg(c, "spuId"), Some(42));
}

const ITEMS: &str = r#"[{"productCode":"9900005462","quantity":1}]"#;

fn quick_order(order_type: &str, items: &str) -> (Dialog, Action) {
    let (d, _) = Dialog::start();
    let (d, a) = type_line(d, "13");
    assert_eq!(lines(&a)[0], "--- 快速点单流程 ---");
    let (d, _) = type_line(d, "1990366");
    let (d, _) = type_line(d, "196028202");
    let (d, a) = type_line(d, "A1");
    assert_eq!(asked(&a), "订单类型 (1=到店, 2=外送): ");
    let (d, _) = type_line(d, order_type);
    type_line(d, items)
}

#[test]
fn quick_pickup_order_asks_take_way_and_drops_delivery_fields() {
    let (d, a) = quick_order("1", ITEMS);
    assert_eq!(lines(&a), vec!["\n正在计算价格...".to_string()]);
    let c = call(&a);
    assert_eq!(c.tool, "calculate-price");
    assert_eq!(text(c, "beCode"), Some("196028202".to_string()));
    let (d, a) = step(d, Event::Succeeded);
    assert_eq!(asked(&a), "确认下单? (y/n): ");
    let (d, a) = type_line(d, "Y");
    assert_eq!(lines(&a), vec!["\n正在创建订单...".to_string()]);
    assert_eq!(asked(&a), "取餐方式编码 takeWayCode（从calculate-price结果获取，回车跳过）: ");
    let (d, a) = type_line(d, "take-in-store");
    let c = call(&a);
    assert_eq!(c.tool, "create-order");
    assert!(arg(c, "beCode").is_none());
    assert!(arg(c, "addressId").is_none());
    assert_eq!(text(c, "takeWayCode"), Some("take-in-store".to_string()));
    let (_, a) = step(d, Event::Failed("sold out".to_string()));
    assert_eq!(lines(&a)[0], "❌ 下单失败: sold out");
}

#[test]
fn quick_delivery_order_goes_straight_to_ordering() {
    let (d, _) = quick_order("2", ITEMS);
    let (d, _) = step(d, Event::Succeeded);
    let (_, a) = type_line(d, "y");
    assert_eq!(lines(&a), vec!["\n正在创建订单...".to_string()]);
    let c = call(&a);
    assert_eq!(c.tool, "create-order");
    assert_eq!(text(c, "beCode"), Some("196028202".to_string()));
    assert_eq!(text(c, "addressId"), Some("A1".to_string()));
    assert!(arg(c, "takeWayCode").is_none());
}

#[test]
fn declining_cancels_the_order() {
    let (d, _) = quick_order("2", ITEMS);
    let (d, _) = step(d, Event::Succeeded);
    let (d, a) = type_line(d, "n");
    assert_eq!(lines(&a)[0], "已取消下单");
    assert!(is_menu(&a));
    assert!(!d.is_over());
}

#[test]
fn failed_pricing_skips_ordering() {
    let (d, _) = quick_order("2", ITEMS);
    let (d, a) = step(d, Event::Failed("bad store".to_string()));
    assert_eq!(lines(&a)[0], "❌ 计价失败: bad store");
    assert!(is_menu(&a));
    assert!(d.accepts(&Event::Line("1".to_string())));
}

#[test]
fn malformed_items_are_reported_before_any_call() {
    let (d, a) = quick_order("2", "[{");
    let l = lines(&a);
    assert_eq!(l[0], "\n正在计算价格...");
    let reason = serde_json::from_str::<serde_json::Value>("[{").unwrap_err().to_string();
    assert_eq!(l[1], format!("❌ 计价失败: {}", reason));
    assert!(is_menu(&a));
    assert!(!d.is_over());
}
