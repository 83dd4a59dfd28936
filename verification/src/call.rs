//! The MCP tool calls: which tool each request names and the arguments it
//! sends. Arguments are listed in the order they are set; the transport
//! turns them into one JSON object.

use vstd::prelude::*;

use crate::json::{json_document, json_refusal_message, parse_items, InvalidItems};
use crate::text::opt_str;

verus! {

/// One argument value of a tool call.
pub enum ArgValue {
    Text(String),
    Int(i64),
    Json(serde_json::Value),
}

/// What an argument value stands for.
pub enum Arg {
    Text(Seq<char>),
    Int(int),
    Json(serde_json::Value),
}

impl View for ArgValue {
    type V = Arg;

    open spec fn view(&self) -> Arg {
        match self {
            ArgValue::Text(s) => Arg::Text(s@),
            ArgValue::Int(i) => Arg::Int(*i as int),
            ArgValue::Json(v) => Arg::Json(*v),
        }
    }
}

/// A request for one tool of the MCP server.
pub struct ToolCall {
    pub tool: String,
    pub args: Vec<(String, ArgValue)>,
}

/// What a tool call stands for: the tool's name and the named arguments in
/// the order they are set.
pub struct Call {
    pub tool: Seq<char>,
    pub args: Seq<(Seq<char>, Arg)>,
}

pub open spec fn args_view(args: Seq<(String, ArgValue)>) -> Seq<(Seq<char>, Arg)> {
    args.map_values(|p: (String, ArgValue)| (p.0@, p.1@))
}

impl View for ToolCall {
    type V = Call;

    open spec fn view(&self) -> Call {
        Call { tool: self.tool@, args: args_view(self.args@) }
    }
}

/// An argument that is present only when a value was given.
pub open spec fn optional_arg(key: Seq<char>, value: Option<Seq<char>>) -> Seq<(Seq<char>, Arg)> {
    match value {
        Some(v) => seq![(key, Arg::Text(v))],
        None => seq![],
    }
}

fn new_call(tool: &str) -> (c: ToolCall)
    ensures
        c@ == (Call { tool: tool@, args: seq![] }),
{
    let c = ToolCall { tool: String::from_str(tool), args: Vec::new() };
    assert(args_view(c.args@) =~= seq![]);
    c
}

impl ToolCall {
    fn set(&mut self, key: &str, value: ArgValue)
        ensures
            final(self)@ == (Call { tool: old(self)@.tool, args: old(self)@.args.push((key@, value@)) }),
    {
        let ghost before = self.args@;
        self.args.push((String::from_str(key), value));
        assert(args_view(self.args@) =~= args_view(before).push((key@, value@)));
    }

    fn set_text(&mut self, key: &str, value: &str)
        ensures
            final(self)@ == (Call {
                tool: old(self)@.tool,
                args: old(self)@.args.push((key@, Arg::Text(value@))),
            }),
    {
        self.set(key, ArgValue::Text(String::from_str(value)));
    }

    fn set_optional(&mut self, key: &str, value: Option<&str>)
        ensures
            final(self)@ == (Call {
                tool: old(self)@.tool,
                args: old(self)@.args + optional_arg(key@, opt_str(value)),
            }),
    {
        match value {
            Some(v) => {
                self.set_text(key, v);
                assert(old(self)@.args.push((key@, Arg::Text(v@))) =~= old(self)@.args
                    + optional_arg(key@, opt_str(value)));
            },
            None => {
                assert(old(self)@.args =~= old(self)@.args + optional_arg(key@, opt_str(value)));
            },
        }
    }
}

/// The requests that take no arguments.
#[derive(PartialEq, Eq, Structural, Clone, Copy)]
pub enum Query {
    Calendar,
    Time,
    Account,
    MyCoupons,
    AvailableCoupons,
    ReceiveCoupons,
    MallProducts,
}

/// The tool behind each argument-free request.
pub open spec fn query_tool(q: Query) -> Seq<char> {
    match q {
        Query::Calendar => "campaign-calendar"@,
        Query::Time => "now-time-info"@,
        Query::Account => "query-my-account"@,
        Query::MyCoupons => "query-my-coupons"@,
        Query::AvailableCoupons => "available-coupons"@,
        Query::ReceiveCoupons => "auto-bind-coupons"@,
        Query::MallProducts => "mall-points-products"@,
    }
}

pub open spec fn query_spec(q: Query) -> Call {
    Call { tool: query_tool(q), args: seq![] }
}

/// The call for a request without arguments.
pub fn query_call(q: Query) -> (c: ToolCall)
    ensures
        c@ == query_spec(q),
{
    match q {
        Query::Calendar => new_call("campaign-calendar"),
        Query::Time => new_call("now-time-info"),
        Query::Account => new_call("query-my-account"),
        Query::MyCoupons => new_call("query-my-coupons"),
        Query::AvailableCoupons => new_call("available-coupons"),
        Query::ReceiveCoupons => new_call("auto-bind-coupons"),
        Query::MallProducts => new_call("mall-points-products"),
    }
}

pub open spec fn address_list_spec(be_type: int) -> Call {
    Call { tool: "delivery-query-addresses"@, args: seq![("beType"@, Arg::Int(be_type))] }
}

/// The saved delivery addresses for a business type (2 McDelivery, 6 group
/// meals).
pub fn address_list_call(be_type: i32) -> (c: ToolCall)
    ensures
        c@ == address_list_spec(be_type as int),
{
    let mut c = new_call("delivery-query-addresses");
    c.set("beType", ArgValue::Int(be_type as i64));
    assert(c@.args =~= address_list_spec(be_type as int).args);
    c
}

pub open spec fn nearby_spec(
    be_type: int,
    search_type: int,
    city: Option<Seq<char>>,
    keyword: Option<Seq<char>>,
) -> Call {
    Call {
        tool: "query-nearby-stores"@,
        args: seq![("beType"@, Arg::Int(be_type)), ("searchType"@, Arg::Int(search_type))]
            + optional_arg("city"@, city) + optional_arg("keyword"@, keyword),
    }
}

/// Nearby stores for a business type and search type, narrowed by city and
/// keyword when given.
pub fn nearby_call(be_type: i32, search_type: i32, city: Option<&str>, keyword: Option<&str>) -> (c:
    ToolCall)
    ensures
        c@ == nearby_spec(be_type as int, search_type as int, opt_str(city), opt_str(keyword)),
{
    let mut c = new_call("query-nearby-stores");
    c.set("beType", ArgValue::Int(be_type as i64));
    c.set("searchType", ArgValue::Int(search_type as i64));
    c.set_optional("city", city);
    c.set_optional("keyword", keyword);
    assert(c@.args =~= nearby_spec(be_type as int, search_type as int, opt_str(city), opt_str(keyword)).args);
    c
}

/// The fields of a new delivery address.
pub struct NewAddress {
    pub city: String,
    pub contact_name: String,
    pub phone: String,
    pub address: String,
    pub address_detail: String,
    pub gender: Option<String>,
}

pub open spec fn address_add_spec(
    city: Seq<char>,
    contact_name: Seq<char>,
    phone: Seq<char>,
    address: Seq<char>,
    address_detail: Seq<char>,
    gender: Option<Seq<char>>,
) -> Call {
    Call {
        tool: "delivery-create-address"@,
        args: seq![
            ("city"@, Arg::Text(city)),
            ("contactName"@, Arg::Text(contact_name)),
            ("phone"@, Arg::Text(phone)),
            ("address"@, Arg::Text(address)),
            ("addressDetail"@, Arg::Text(address_detail)),
            ("beType"@, Arg::Int(2)),
        ] + optional_arg("gender"@, gender),
    }
}

/// Creates a McDelivery (`beType` 2) address; the gender is sent only when
/// one was given.
pub fn address_add_call(a: &NewAddress) -> (c: ToolCall)
    ensures
        c@.tool == "delivery-create-address"@,
        c@.args[0] == ("city"@, Arg::Text(a.city@)),
        c@.args[1] == ("contactName"@, Arg::Text(a.contact_name@)),
        c@.args[2] == ("phone"@, Arg::Text(a.phone@)),
        c@.args[3] == ("address"@, Arg::Text(a.address@)),
        c@.args[4] == ("addressDetail"@, Arg::Text(a.address_detail@)),
        c@.args[5] == ("beType"@, Arg::Int(2)),
        c@.args.len() == if a.gender is Some { 7int } else { 6int },
        a.gender matches Some(g) ==> c@.args[6] == ("gender"@, Arg::Text(g@)),
        c@ == address_add_spec(
            a.city@,
            a.contact_name@,
            a.phone@,
            a.address@,
            a.address_detail@,
            match a.gender {
                Some(g) => Some(g@),
                None => None,
            },
        ),
{
    let mut c = new_call("delivery-create-address");
    c.set_text("city", a.city.as_str());
    c.set_text("contactName", a.contact_name.as_str());
    c.set_text("phone", a.phone.as_str());
    c.set_text("address", a.address.as_str());
    c.set_text("addressDetail", a.address_detail.as_str());
    c.set("beType", ArgValue::Int(2));
    match &a.gender {
        Some(g) => c.set_optional("gender", Some(g.as_str())),
        None => c.set_optional("gender", None),
    }
    assert(c@.args =~= address_add_spec(
        a.city@,
        a.contact_name@,
        a.phone@,
        a.address@,
        a.address_detail@,
        match a.gender {
            Some(g) => Some(g@),
            None => None,
        },
    ).args);
    c
}

pub open spec fn menu_spec(store: Seq<char>, be: Option<Seq<char>>, order_type: int) -> Call {
    Call {
        tool: "query-meals"@,
        args: seq![("storeCode"@, Arg::Text(store)), ("orderType"@, Arg::Int(order_type))]
            + optional_arg("beCode"@, be),
    }
}

/// A store's menu for an order type (1 pick-up, 2 delivery).
pub fn menu_call(store: &str, be: Option<&str>, order_type: i32) -> (c: ToolCall)
    ensures
        c@ == menu_spec(store@, opt_str(be), order_type as int),
{
    let mut c = new_call("query-meals");
    c.set_text("storeCode", store);
    c.set("orderType", ArgValue::Int(order_type as i64));
    c.set_optional("beCode", be);
    assert(c@.args =~= menu_spec(store@, opt_str(be), order_type as int).args);
    c
}

pub open spec fn detail_spec(
    code: Seq<char>,
    store: Seq<char>,
    be: Option<Seq<char>>,
    order_type: int,
) -> Call {
    Call {
        tool: "query-meal-detail"@,
        args: seq![
            ("code"@, Arg::Text(code)),
            ("storeCode"@, Arg::Text(store)),
            ("orderType"@, Arg::Int(order_type)),
        ] + optional_arg("beCode"@, be),
    }
}

/// The details of one product in a store.
pub fn detail_call(code: &str, store: &str, be: Option<&str>, order_type: i32) -> (c: ToolCall)
    ensures
        c@ == detail_spec(code@, store@, opt_str(be), order_type as int),
{
    let mut c = new_call("query-meal-detail");
    c.set_text("code", code);
    c.set_text("storeCode", store);
    c.set("orderType", ArgValue::Int(order_type as i64));
    c.set_optional("beCode", be);
    assert(c@.args =~= detail_spec(code@, store@, opt_str(be), order_type as int).args);
    c
}

pub open spec fn coupon_store_spec(store: Seq<char>, be: Seq<char>, order_type: int) -> Call {
    Call {
        tool: "query-store-coupons"@,
        args: seq![
            ("storeCode"@, Arg::Text(store)),
            ("beCode"@, Arg::Text(be)),
            ("orderType"@, Arg::Int(order_type)),
        ],
    }
}

/// The coupons a store accepts.
pub fn coupon_store_call(store: &str, be: &str, order_type: i32) -> (c: ToolCall)
    ensures
        c@ == coupon_store_spec(store@, be@, order_type as int),
{
    let mut c = new_call("query-store-coupons");
    c.set_text("storeCode", store);
    c.set_text("beCode", be);
    c.set("orderType", ArgValue::Int(order_type as i64));
    assert(c@.args =~= coupon_store_spec(store@, be@, order_type as int).args);
    c
}

pub open spec fn mall_detail_spec(spu_id: int) -> Call {
    Call { tool: "mall-product-detail"@, args: seq![("spuId"@, Arg::Int(spu_id))] }
}

/// The details of a points-mall product.
pub fn mall_detail_call(spu_id: i64) -> (c: ToolCall)
    ensures
        c@ == mall_detail_spec(spu_id as int),
{
    let mut c = new_call("mall-product-detail");
    c.set("spuId", ArgValue::Int(spu_id));
    assert(c@.args =~= mall_detail_spec(spu_id as int).args);
    c
}

pub open spec fn mall_exchange_spec(sku_id: int, count: int) -> Call {
    Call {
        tool: "mall-create-order"@,
        args: seq![("skuId"@, Arg::Int(sku_id)), ("count"@, Arg::Int(count))],
    }
}

/// Exchanges points for `count` units of a mall product.
pub fn mall_exchange_call(sku_id: i64, count: i32) -> (c: ToolCall)
    ensures
        c@ == mall_exchange_spec(sku_id as int, count as int),
{
    let mut c = new_call("mall-create-order");
    c.set("skuId", ArgValue::Int(sku_id));
    c.set("count", ArgValue::Int(count as i64));
    assert(c@.args =~= mall_exchange_spec(sku_id as int, count as int).args);
    c
}

pub open spec fn price_spec(
    store: Seq<char>,
    be: Option<Seq<char>>,
    order_type: int,
    items: serde_json::Value,
) -> Call {
    Call {
        tool: "calculate-price"@,
        args: seq![
            ("storeCode"@, Arg::Text(store)),
            ("orderType"@, Arg::Int(order_type)),
            ("items"@, Arg::Json(items)),
        ] + optional_arg("beCode"@, be),
    }
}

/// Prices an already-read item list at a store.
pub fn price_call_with_items(
    store: &str,
    be: Option<&str>,
    order_type: i32,
    items: serde_json::Value,
) -> (c: ToolCall)
    ensures
        c@ == price_spec(store@, opt_str(be), order_type as int, items),
        c@.tool == "calculate-price"@,
        c@.args[0] == ("storeCode"@, Arg::Text(store@)),
        c@.args[1] == ("orderType"@, Arg::Int(order_type as int)),
        c@.args[2] == ("items"@, Arg::Json(items)),
        c@.args.len() == if be is Some { 4int } else { 3int },
        be matches Some(b) ==> c@.args[3] == ("beCode"@, Arg::Text(b@)),
{
    let mut c = new_call("calculate-price");
    c.set_text("storeCode", store);
    c.set("orderType", ArgValue::Int(order_type as i64));
    c.set("items", ArgValue::Json(items));
    c.set_optional("beCode", be);
    assert(c@.args =~= price_spec(store@, opt_str(be), order_type as int, items).args);
    c
}

/// Prices an item list (JSON text) at a store. Refused exactly when the item
/// list is not JSON, with `serde_json`'s message; otherwise the document read
/// from it is sent.
pub fn price_call(store: &str, be: Option<&str>, order_type: i32, items: &str) -> (res: Result<
    ToolCall,
    InvalidItems,
>)
    ensures
        match res {
            Ok(c) => json_document(items@) is Some && c@ == price_spec(
                store@,
                opt_str(be),
                order_type as int,
                json_document(items@)->0,
            ),
            Err(e) => json_document(items@) is None && e.message@ == json_refusal_message(items@),
        },
{
    let doc = parse_items(items)?;
    Ok(price_call_with_items(store, be, order_type, doc))
}

/// The fields of a new order.
pub struct OrderRequest {
    pub store: String,
    pub be: Option<String>,
    pub address: Option<String>,
    pub items: String,
    pub order_type: i32,
    pub take_way: Option<String>,
}

pub open spec fn order_spec(
    store: Seq<char>,
    be: Option<Seq<char>>,
    address: Option<Seq<char>>,
    items: serde_json::Value,
    order_type: int,
    take_way: Option<Seq<char>>,
) -> Call {
    Call {
        tool: "create-order"@,
        args: seq![
            ("storeCode"@, Arg::Text(store)),
            ("items"@, Arg::Json(items)),
            ("orderType"@, Arg::Int(order_type)),
        ] + (if order_type == 2 {
            optional_arg("beCode"@, be) + optional_arg("addressId"@, address)
        } else {
            seq![]
        }) + optional_arg("takeWayCode"@, take_way),
    }
}

/// Creates an order from an already-read item list. The beCode and address
/// ID are sent only for a delivery order (`order_type` 2); for any other
/// order type they are left out even when given.
pub fn order_call_with_items(
    store: &str,
    be: Option<&str>,
    address: Option<&str>,
    items: serde_json::Value,
    order_type: i32,
    take_way: Option<&str>,
) -> (c: ToolCall)
    ensures
        c@ == order_spec(
            store@,
            opt_str(be),
            opt_str(address),
            items,
            order_type as int,
            opt_str(take_way),
        ),
        c@.tool == "create-order"@,
        c@.args[0] == ("storeCode"@, Arg::Text(store@)),
        c@.args[1] == ("items"@, Arg::Json(items)),
        c@.args[2] == ("orderType"@, Arg::Int(order_type as int)),
        order_type == 2 ==> c@.args.subrange(3, c@.args.len() as int) == optional_arg(
            "beCode"@,
            opt_str(be),
        ) + optional_arg("addressId"@, opt_str(address)) + optional_arg(
            "takeWayCode"@,
            opt_str(take_way),
        ),
        order_type != 2 ==> c@.args.subrange(3, c@.args.len() as int) == optional_arg(
            "takeWayCode"@,
            opt_str(take_way),
        ),
{
    let ghost doc = items;
    let mut c = new_call("create-order");
    c.set_text("storeCode", store);
    c.set("items", ArgValue::Json(items));
    c.set("orderType", ArgValue::Int(order_type as i64));
    let ghost head = c@.args;
    if order_type == 2 {
        c.set_optional("beCode", be);
        c.set_optional("addressId", address);
        assert(c@.args =~= head + (optional_arg("beCode"@, opt_str(be)) + optional_arg(
            "addressId"@,
            opt_str(address),
        )));
    } else {
        assert(c@.args =~= head + seq![]);
    }
    c.set_optional("takeWayCode", take_way);
    assert(c@.args =~= order_spec(
        store@,
        opt_str(be),
        opt_str(address),
        doc,
        order_type as int,
        opt_str(take_way),
    ).args);
    c
}

/// Creates an order from an item list given as JSON text. Refused exactly
/// when the item list is not JSON; otherwise as `order_call_with_items` with
/// the document read from it.
pub fn order_call(
    store: &str,
    be: Option<&str>,
    address: Option<&str>,
    items: &str,
    order_type: i32,
    take_way: Option<&str>,
) -> (res: Result<ToolCall, InvalidItems>)
    ensures
        match res {
            Ok(c) => json_document(items@) is Some && c@ == order_spec(
                store@,
                opt_str(be),
                opt_str(address),
                json_document(items@)->0,
                order_type as int,
                opt_str(take_way),
            ),
            Err(e) => json_document(items@) is None && e.message@ == json_refusal_message(items@),
        },
{
    let doc = parse_items(items)?;
    Ok(order_call_with_items(store, be, address, doc, order_type, take_way))
}

pub open spec fn order_query_spec(id: Seq<char>) -> Call {
    Call { tool: "query-order"@, args: seq![("orderId"@, Arg::Text(id))] }
}

/// The state of an order.
pub fn order_query_call(id: &str) -> (c: ToolCall)
    ensures
        c@ == order_query_spec(id@),
{
    let mut c = new_call("query-order");
    c.set_text("orderId", id);
    assert(c@.args =~= order_query_spec(id@).args);
    c
}

} // verus!
