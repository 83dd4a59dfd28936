//! The command line: which token and server are used, and what each command
//! does.

use vstd::prelude::*;

use crate::call::{
    address_list_call, address_list_spec,
    coupon_store_call, coupon_store_spec, detail_call, detail_spec,
    mall_detail_call, mall_detail_spec, mall_exchange_call, mall_exchange_spec, menu_call,
    menu_spec, nearby_call, nearby_spec, order_call, order_query_call, order_query_spec,
    order_spec, price_call, price_spec, query_call, query_spec, Call, Query, ToolCall,
};
use crate::json::{json_document, json_refusal_message, InvalidItems};
use crate::text::{as_str_opt, opt_text};

verus! {

/// No token was given anywhere.
pub struct MissingToken {}

impl MissingToken {
    /// The error text, naming the three ways to give a token.
    pub fn message(&self) -> (s: String)
        ensures
            s@ == missing_token_text(),
    {
        String::from_str(
            "错误: 需要提供 MCP Token\n方式1: mcd-cli login --token xxx\n方式2: 环境变量 MCD_MCP_TOKEN=xxx\n方式3: 命令行参数 --token xxx",
        )
    }
}

pub open spec fn missing_token_text() -> Seq<char> {
    "错误: 需要提供 MCP Token\n方式1: mcd-cli login --token xxx\n方式2: 环境变量 MCD_MCP_TOKEN=xxx\n方式3: 命令行参数 --token xxx"@
}

/// The first token given: on the command line, else in the environment
/// (`MCD_MCP_TOKEN`), else in the configuration file.
pub open spec fn chosen_token(
    cli: Option<Seq<char>>,
    env: Option<Seq<char>>,
    config: Option<Seq<char>>,
) -> Option<Seq<char>> {
    if cli is Some {
        cli
    } else if env is Some {
        env
    } else {
        config
    }
}

/// Picks the MCP token by priority: command line, then environment, then
/// configuration file. Fails exactly when none of the three gives one.
pub fn resolve_token(cli: Option<String>, env: Option<String>, config: Option<String>) -> (res:
    Result<String, MissingToken>)
    ensures
        match res {
            Ok(t) => chosen_token(opt_text(cli), opt_text(env), opt_text(config)) == Some(t@),
            Err(_) => chosen_token(opt_text(cli), opt_text(env), opt_text(config)) is None,
        },
        cli matches Some(c) ==> (res matches Ok(t) && t@ == c@),
        cli is None ==> (env matches Some(e) ==> (res matches Ok(t) && t@ == e@)),
        cli is None && env is None ==> (config matches Some(f) ==> (res matches Ok(t) && t@
            == f@)),
        res is Err <==> cli is None && env is None && config is None,
{
    match cli {
        Some(t) => Ok(t),
        None => match env {
            Some(t) => Ok(t),
            None => match config {
                Some(t) => Ok(t),
                None => Err(MissingToken {}),
            },
        },
    }
}

/// The server URL: the one saved in the configuration file when there is
/// one, else the one from the command line (which defaults to
/// `https://mcp.mcd.cn`).
pub fn resolve_url(config: Option<String>, cli: String) -> (url: String)
    ensures
        url@ == match config {
            Some(u) => u@,
            None => cli@,
        },
{
    match config {
        Some(u) => u,
        None => cli,
    }
}

/// `address` subcommands.
pub enum AddressAction {
    List { be_type: i32 },
    Add,
}

/// `coupon` subcommands.
pub enum CouponAction {
    Store { store: String, be: String, order_type: i32 },
    My,
    Available,
    Receive,
}

/// `mall` subcommands.
pub enum MallAction {
    Products,
    Detail { spu_id: i64 },
    Exchange { sku_id: i64, count: i32 },
}

/// `order` subcommands.
pub enum OrderAction {
    Create {
        store: String,
        be: Option<String>,
        address: Option<String>,
        items: String,
        order_type: i32,
        take_way: Option<String>,
    },
    Query { id: String },
}

/// The commands of the command line.
pub enum Command {
    Init,
    Calendar,
    Time,
    Account,
    Nearby { be_type: i32, search_type: i32, city: Option<String>, keyword: Option<String> },
    Address { action: AddressAction },
    Menu { store: String, be: Option<String>, order_type: i32 },
    Detail { code: String, store: String, be: Option<String>, order_type: i32 },
    Coupon { action: CouponAction },
    Mall { action: MallAction },
    Price { store: String, be: Option<String>, order_type: i32, items: String },
    Order { action: OrderAction },
    Login { token: String, url: Option<String> },
    Config,
    Interactive,
}

/// What a command comes down to.
pub enum Plan {
    /// Save the token (and the URL, when given) to the configuration file.
    SaveLogin { token: String, url: Option<String> },
    /// Show the configuration file and its settings.
    ShowConfig,
    /// Test the connection (initialize the MCP session).
    Connect,
    /// Ask for a new delivery address, then create it.
    AddAddress,
    /// Make this tool call and show its result.
    Run(ToolCall),
    /// Start the interactive session.
    Interactive,
}

/// Whether a plan is to run exactly this call.
pub open spec fn runs(p: Plan, c: Call) -> bool {
    p matches Plan::Run(t) && t@ == c
}

/// Decides what a command does (no command starts the interactive session).
/// Only `price` and `order create` can be refused, exactly when their item
/// list is not JSON.
pub fn plan(command: Option<Command>) -> (res: Result<Plan, InvalidItems>)
    ensures
        match command {
            None => res matches Ok(Plan::Interactive),
            Some(Command::Init) => res matches Ok(Plan::Connect),
            Some(Command::Calendar) => res matches Ok(p) && runs(p, query_spec(Query::Calendar)),
            Some(Command::Time) => res matches Ok(p) && runs(p, query_spec(Query::Time)),
            Some(Command::Account) => res matches Ok(p) && runs(p, query_spec(Query::Account)),
            Some(Command::Nearby { be_type, search_type, city, keyword }) => res matches Ok(p)
                && runs(
                p,
                nearby_spec(be_type as int, search_type as int, opt_text(city), opt_text(keyword)),
            ),
            Some(Command::Address { action: AddressAction::List { be_type } }) => res matches Ok(p)
                && runs(p, address_list_spec(be_type as int)),
            Some(Command::Address { action: AddressAction::Add }) => res matches Ok(
                Plan::AddAddress,
            ),
            Some(Command::Menu { store, be, order_type }) => res matches Ok(p) && runs(
                p,
                menu_spec(store@, opt_text(be), order_type as int),
            ),
            Some(Command::Detail { code, store, be, order_type }) => res matches Ok(p) && runs(
                p,
                detail_spec(code@, store@, opt_text(be), order_type as int),
            ),
            Some(Command::Coupon { action: CouponAction::Store { store, be, order_type } }) => res matches Ok(
                p,
            ) && runs(p, coupon_store_spec(store@, be@, order_type as int)),
            Some(Command::Coupon { action: CouponAction::My }) => res matches Ok(p) && runs(
                p,
                query_spec(Query::MyCoupons),
            ),
            Some(Command::Coupon { action: CouponAction::Available }) => res matches Ok(p)
                && runs(p, query_spec(Query::AvailableCoupons)),
            Some(Command::Coupon { action: CouponAction::Receive }) => res matches Ok(p) && runs(
                p,
                query_spec(Query::ReceiveCoupons),
            ),
            Some(Command::Mall { action: MallAction::Products }) => res matches Ok(p) && runs(
                p,
                query_spec(Query::MallProducts),
            ),
            Some(Command::Mall { action: MallAction::Detail { spu_id } }) => res matches Ok(p)
                && runs(p, mall_detail_spec(spu_id as int)),
            Some(Command::Mall { action: MallAction::Exchange { sku_id, count } }) => res matches Ok(
                p,
            ) && runs(p, mall_exchange_spec(sku_id as int, count as int)),
            Some(Command::Price { store, be, order_type, items }) => match json_document(items@) {
                Some(doc) => res matches Ok(p) && runs(
                    p,
                    price_spec(store@, opt_text(be), order_type as int, doc),
                ),
                None => res matches Err(e) && e.message@ == json_refusal_message(items@),
            },
            Some(
                Command::Order {
                    action: OrderAction::Create { store, be, address, items, order_type, take_way },
                },
            ) => match json_document(items@) {
                Some(doc) => res matches Ok(p) && runs(
                    p,
                    order_spec(
                        store@,
                        opt_text(be),
                        opt_text(address),
                        doc,
                        order_type as int,
                        opt_text(take_way),
                    ),
                ),
                None => res matches Err(e) && e.message@ == json_refusal_message(items@),
            },
            Some(Command::Order { action: OrderAction::Query { id } }) => res matches Ok(p)
                && runs(p, order_query_spec(id@)),
            Some(Command::Login { token, url }) => res matches Ok(Plan::SaveLogin { token: t, url: u })
                && t@ == token@ && opt_text(u) == opt_text(url),
            Some(Command::Config) => res matches Ok(Plan::ShowConfig),
            Some(Command::Interactive) => res matches Ok(Plan::Interactive),
        },
{
    match command {
        None => Ok(Plan::Interactive),
        Some(Command::Init) => Ok(Plan::Connect),
        Some(Command::Calendar) => Ok(Plan::Run(query_call(Query::Calendar))),
        Some(Command::Time) => Ok(Plan::Run(query_call(Query::Time))),
        Some(Command::Account) => Ok(Plan::Run(query_call(Query::Account))),
        Some(Command::Nearby { be_type, search_type, city, keyword }) => Ok(
            Plan::Run(nearby_call(be_type, search_type, as_str_opt(&city), as_str_opt(&keyword))),
        ),
        Some(Command::Address { action }) => match action {
            AddressAction::List { be_type } => Ok(Plan::Run(address_list_call(be_type))),
            AddressAction::Add => Ok(Plan::AddAddress),
        },
        Some(Command::Menu { store, be, order_type }) => Ok(
            Plan::Run(menu_call(store.as_str(), as_str_opt(&be), order_type)),
        ),
        Some(Command::Detail { code, store, be, order_type }) => Ok(
            Plan::Run(detail_call(code.as_str(), store.as_str(), as_str_opt(&be), order_type)),
        ),
        Some(Command::Coupon { action }) => match action {
            CouponAction::Store { store, be, order_type } => Ok(
                Plan::Run(coupon_store_call(store.as_str(), be.as_str(), order_type)),
            ),
            CouponAction::My => Ok(Plan::Run(query_call(Query::MyCoupons))),
            CouponAction::Available => Ok(Plan::Run(query_call(Query::AvailableCoupons))),
            CouponAction::Receive => Ok(Plan::Run(query_call(Query::ReceiveCoupons))),
        },
        Some(Command::Mall { action }) => match action {
            MallAction::Products => Ok(Plan::Run(query_call(Query::MallProducts))),
            MallAction::Detail { spu_id } => Ok(Plan::Run(mall_detail_call(spu_id))),
            MallAction::Exchange { sku_id, count } => Ok(
                Plan::Run(mall_exchange_call(sku_id, count)),
            ),
        },
        Some(Command::Price { store, be, order_type, items }) => {
            let c = price_call(store.as_str(), as_str_opt(&be), order_type, items.as_str())?;
            Ok(Plan::Run(c))
        },
        Some(Command::Order { action }) => match action {
            OrderAction::Create { store, be, address, items, order_type, take_way } => {
                let c = order_call(
                    store.as_str(),
                    as_str_opt(&be),
                    as_str_opt(&address),
                    items.as_str(),
                    order_type,
                    as_str_opt(&take_way),
                )?;
                Ok(Plan::Run(c))
            },
            OrderAction::Query { id } => Ok(Plan::Run(order_query_call(id.as_str()))),
        },
        Some(Command::Login { token, url }) => Ok(Plan::SaveLogin { token, url }),
        Some(Command::Config) => Ok(Plan::ShowConfig),
        Some(Command::Interactive) => Ok(Plan::Interactive),
    }
}

} // verus!
