//! The interactive ordering session as a state machine. The session never
//! reads or writes anything itself: each step takes what happened (a line
//! the user typed, a failed read, or the outcome of a tool call) and answers
//! with what to show and what to do next (ask, call a tool, or stop).

use vstd::prelude::*;

use crate::call::{
    address_list_call, address_list_spec,
    address_add_call, address_add_spec, coupon_store_call, coupon_store_spec, detail_call, detail_spec,
    mall_detail_call, mall_detail_spec, mall_exchange_call, mall_exchange_spec, menu_call,
    menu_spec, nearby_call, nearby_spec, order_call, order_query_call, order_query_spec,
    order_spec, price_call, price_spec, query_call, query_spec, Call, NewAddress, Query,
    ToolCall,
};
use crate::json::{json_document, json_refusal_message};
use crate::text::{
    as_str_opt, opt_str,
    confirms, i32_or, i64_or, is_yes, opt_text, optional_answer, parse_i32_or, parse_i64_or,
    read_line_opt, same_text, trim_line, trimmed,
};

verus! {

/// The question sequences the session walks through before it calls a tool.
#[derive(PartialEq, Eq, Structural, Clone, Copy)]
pub enum Form {
    Nearby,
    NewAddress,
    Menu,
    Detail,
    StoreCoupons,
    MallDetail,
    MallExchange,
    QuickOrder,
    OrderQuery,
}

/// The two second-level menus.
#[derive(PartialEq, Eq, Structural, Clone, Copy)]
pub enum SubMenu {
    Coupons,
    Mall,
}

/// What failed, as the failure notice words it.
#[derive(PartialEq, Eq, Structural, Clone, Copy)]
pub enum Failure {
    Connect,
    Query,
    AddAddress,
    ReceiveCoupons,
    Exchange,
    Price,
    Order,
}

pub open spec fn failure_label(f: Failure) -> Seq<char> {
    match f {
        Failure::Connect => "连接失败"@,
        Failure::Query => "查询失败"@,
        Failure::AddAddress => "添加失败"@,
        Failure::ReceiveCoupons => "领券失败"@,
        Failure::Exchange => "兑换失败"@,
        Failure::Price => "计价失败"@,
        Failure::Order => "下单失败"@,
    }
}

fn label(f: Failure) -> (s: &'static str)
    ensures
        s@ == failure_label(f),
{
    match f {
        Failure::Connect => "连接失败",
        Failure::Query => "查询失败",
        Failure::AddAddress => "添加失败",
        Failure::ReceiveCoupons => "领券失败",
        Failure::Exchange => "兑换失败",
        Failure::Price => "计价失败",
        Failure::Order => "下单失败",
    }
}

/// The line that reports a failure: `❌ <label>: <reason>`.
pub open spec fn failure_line(f: Failure, reason: Seq<char>) -> Seq<char> {
    "❌ "@ + failure_label(f) + ": "@ + reason
}

/// A quick order between pricing and placing it.
pub struct Draft {
    pub store: String,
    pub be: Option<String>,
    pub address: Option<String>,
    pub order_type: i32,
    pub items: String,
}

pub struct DraftView {
    pub store: Seq<char>,
    pub be: Option<Seq<char>>,
    pub address: Option<Seq<char>>,
    pub order_type: int,
    pub items: Seq<char>,
}

impl View for Draft {
    type V = DraftView;

    open spec fn view(&self) -> DraftView {
        DraftView {
            store: self.store@,
            be: opt_text(self.be),
            address: opt_text(self.address),
            order_type: self.order_type as int,
            items: self.items@,
        }
    }
}

/// Where the session stands: which answer (or which tool outcome) it waits for.
pub enum Session {
    /// The main menu was shown; waiting for the choice.
    Choosing,
    /// Waiting for the answer to the next question of a form.
    Answering { form: Form, answers: Vec<Option<String>> },
    /// A second-level menu was shown; waiting for the choice.
    SubChoosing { menu: SubMenu },
    /// A tool call is under way; `draft` is the quick order being priced.
    Waiting { failure: Failure, draft: Option<Draft> },
    /// The quick order was priced; waiting for the confirmation.
    Confirming { draft: Draft },
    /// The order was confirmed; waiting for the optional take-way code.
    TakeWay { draft: Draft },
    /// The session is over.
    Ended,
}

pub enum SessionView {
    Choosing,
    Answering { form: Form, answers: Seq<Option<Seq<char>>> },
    SubChoosing { menu: SubMenu },
    Waiting { failure: Failure, draft: Option<DraftView> },
    Confirming { draft: DraftView },
    TakeWay { draft: DraftView },
    Ended,
}

pub open spec fn answers_view(answers: Seq<Option<String>>) -> Seq<Option<Seq<char>>> {
    answers.map_values(|a: Option<String>| opt_text(a))
}

pub open spec fn opt_draft(d: Option<Draft>) -> Option<DraftView> {
    match d {
        Some(d) => Some(d@),
        None => None,
    }
}

impl View for Session {
    type V = SessionView;

    open spec fn view(&self) -> SessionView {
        match self {
            Session::Choosing => SessionView::Choosing,
            Session::Answering { form, answers } => SessionView::Answering {
                form: *form,
                answers: answers_view(answers@),
            },
            Session::SubChoosing { menu } => SessionView::SubChoosing { menu: *menu },
            Session::Waiting { failure, draft } => SessionView::Waiting {
                failure: *failure,
                draft: opt_draft(*draft),
            },
            Session::Confirming { draft } => SessionView::Confirming { draft: draft@ },
            Session::TakeWay { draft } => SessionView::TakeWay { draft: draft@ },
            Session::Ended => SessionView::Ended,
        }
    }
}

/// What happened since the last action.
pub enum Event {
    /// The user typed this line (as read, untrimmed).
    Line(String),
    /// Reading the line failed, with this message.
    ReadFailed(String),
    /// The tool call (or the connection test) succeeded; its result was shown.
    Succeeded,
    /// The tool call (or the connection test) failed with this message.
    Failed(String),
}

pub enum EventView {
    Line(Seq<char>),
    ReadFailed(Seq<char>),
    Succeeded,
    Failed(Seq<char>),
}

impl View for Event {
    type V = EventView;

    open spec fn view(&self) -> EventView {
        match self {
            Event::Line(s) => EventView::Line(s@),
            Event::ReadFailed(s) => EventView::ReadFailed(s@),
            Event::Succeeded => EventView::Succeeded,
            Event::Failed(s) => EventView::Failed(s@),
        }
    }
}

/// One line to show the user.
pub enum Notice {
    Say(String),
    /// A failure and its reason.
    Failed(Failure, String),
}

pub enum NoticeView {
    Say(Seq<char>),
    Failed(Failure, Seq<char>),
}

impl View for Notice {
    type V = NoticeView;

    open spec fn view(&self) -> NoticeView {
        match self {
            Notice::Say(s) => NoticeView::Say(s@),
            Notice::Failed(f, s) => NoticeView::Failed(*f, s@),
        }
    }
}

impl Notice {
    /// The text of the notice, as printed.
    pub fn line(&self) -> (s: String)
        ensures
            s@ == match self {
                Notice::Say(t) => t@,
                Notice::Failed(f, reason) => failure_line(*f, reason@),
            },
    {
        match self {
            Notice::Say(t) => t.clone(),
            Notice::Failed(f, reason) => {
                let mut s = String::from_str("❌ ");
                s.append(label(*f));
                s.append(": ");
                s.append(reason.as_str());
                s
            },
        }
    }
}

/// What to do after showing the notices.
pub enum Effect {
    /// Show the prompt and read a line.
    Ask(String),
    /// Make the tool call.
    Run(ToolCall),
    /// Test the connection (initialize the MCP session).
    Connect,
    /// Leave the session normally.
    Exit,
    /// Leave the session with this error.
    Abort(String),
}

pub enum EffectView {
    Ask(Seq<char>),
    Run(Call),
    Connect,
    Exit,
    Abort(Seq<char>),
}

impl View for Effect {
    type V = EffectView;

    open spec fn view(&self) -> EffectView {
        match self {
            Effect::Ask(s) => EffectView::Ask(s@),
            Effect::Run(c) => EffectView::Run(c@),
            Effect::Connect => EffectView::Connect,
            Effect::Exit => EffectView::Exit,
            Effect::Abort(s) => EffectView::Abort(s@),
        }
    }
}

/// The notices to show, in order, then the effect.
pub struct Action {
    pub out: Vec<Notice>,
    pub effect: Effect,
}

pub struct ActionView {
    pub out: Seq<NoticeView>,
    pub effect: EffectView,
}

pub open spec fn notices_view(out: Seq<Notice>) -> Seq<NoticeView> {
    out.map_values(|n: Notice| n@)
}

impl View for Action {
    type V = ActionView;

    open spec fn view(&self) -> ActionView {
        ActionView { out: notices_view(self.out@), effect: self.effect@ }
    }
}

// ----- texts -----
pub open spec fn divider() -> Seq<char> {
    "--------------------------------------------------"@
}

/// The main menu, as shown before every choice.
pub open spec fn menu_lines() -> Seq<Seq<char>> {
    seq![
        divider(),
        "🍟 麦当劳 CLI 交互模式"@,
        divider(),
        "1.  测试连接"@,
        "2.  查看活动日历"@,
        "3.  查看当前时间"@,
        "4.  查看我的账户/积分"@,
        "5.  查询附近门店"@,
        "6.  查看配送地址"@,
        "7.  新增配送地址"@,
        "8.  浏览菜单"@,
        "9.  查看餐品详情"@,
        "10. 门店优惠券"@,
        "11. 我的优惠券 / 一键领券 / 可领券"@,
        "12. 积分商城"@,
        "13. 快速点单（计算价格+下单）"@,
        "14. 查询订单详情"@,
        "0.  退出"@,
        divider(),
    ]
}

pub open spec fn says(lines: Seq<Seq<char>>) -> Seq<NoticeView> {
    lines.map_values(|l: Seq<char>| NoticeView::Say(l))
}

pub open spec fn choice_prompt() -> Seq<char> {
    "请输入选项: "@
}

pub open spec fn sub_choice_prompt() -> Seq<char> {
    "选择: "@
}

pub open spec fn confirm_prompt() -> Seq<char> {
    "确认下单? (y/n): "@
}

pub open spec fn take_way_prompt() -> Seq<char> {
    "取餐方式编码 takeWayCode（从calculate-price结果获取，回车跳过）: "@
}

pub open spec fn goodbye() -> Seq<char> {
    "再见，祝您用餐愉快! 🍔"@
}

pub open spec fn pricing_line() -> Seq<char> {
    "\n正在计算价格..."@
}

pub open spec fn ordering_line() -> Seq<char> {
    "\n正在创建订单..."@
}

pub open spec fn cancelled_line() -> Seq<char> {
    "已取消下单"@
}

pub open spec fn invalid_choice_line() -> Seq<char> {
    "无效选项，请重新输入"@
}

pub open spec fn invalid_sub_choice_line() -> Seq<char> {
    "无效选择"@
}

pub open spec fn sub_menu_lines(m: SubMenu) -> Seq<Seq<char>> {
    match m {
        SubMenu::Coupons => seq!["a. 我的优惠券"@, "b. 可领优惠券列表"@, "c. 一键领券"@],
        SubMenu::Mall => seq!["a. 积分兑换商品列表"@, "b. 积分兑换商品详情"@, "c. 积分兑换下单"@],
    }
}

/// The lines shown when a form starts.
pub open spec fn form_intro(f: Form) -> Seq<Seq<char>> {
    match f {
        Form::NewAddress => seq!["请输入配送地址信息（麦乐送 beType=2）:"@],
        Form::QuickOrder => seq![
            "--- 快速点单流程 ---"@,
            "提示: 门店信息请先从【查看配送地址】或【查询附近门店】中获取"@,
        ],
        _ => seq![],
    }
}

/// The questions of each form, each with whether it may be left blank.
pub open spec fn form_questions(f: Form) -> Seq<(Seq<char>, bool)> {
    let store = "门店 storeCode: "@;
    let be = "门店 beCode（到店取餐回车跳过）: "@;
    let order_type = "订单类型 (1=到店, 2=外送): "@;
    match f {
        Form::Nearby => seq![("城市名: "@, false), ("关键词（商圈/学校/路名）: "@, false)],
        Form::NewAddress => seq![
            ("城市名称: "@, false),
            ("联系人姓名: "@, false),
            ("联系电话: "@, false),
            ("配送地址（小区/楼栋）: "@, false),
            ("门牌号: "@, false),
            ("性别（先生/女士，回车跳过）: "@, true),
        ],
        Form::Menu => seq![(store, false), (be, true), (order_type, false)],
        Form::Detail => seq![("商品 code: "@, false), (store, false), (be, true), (order_type, false)],
        Form::StoreCoupons => seq![(store, false), ("门店 beCode: "@, false), (order_type, false)],
        Form::MallDetail => seq![("商品 spuId: "@, false)],
        Form::MallExchange => seq![("商品 skuId: "@, false), ("兑换数量（默认1）: "@, false)],
        Form::QuickOrder => seq![
            (store, false),
            (be, true),
            ("地址 ID（到店取餐回车跳过）: "@, true),
            (order_type, false),
            ("商品列表 JSON: [{\"productCode\":\"xxx\",\"quantity\":1}]: "@, false),
        ],
        Form::OrderQuery => seq![("订单号 orderId: "@, false)],
    }
}

pub open spec fn question_count(f: Form) -> nat {
    form_questions(f).len()
}

pub open spec fn may_skip(f: Form, i: int) -> bool {
    form_questions(f)[i].1
}

/// The session's invariant: a form in progress has questions left, and every
/// question that may not be skipped has its answer.
pub open spec fn well_formed(s: SessionView) -> bool {
    match s {
        SessionView::Answering { form, answers } => {
            &&& answers.len() < question_count(form)
            &&& forall|i: int|
                0 <= i < answers.len() && !may_skip(form, i) ==> (#[trigger] answers[i]) is Some
        },
        _ => true,
    }
}

/// Which events a session can take: answers while it asks, call outcomes
/// while a call is under way, nothing once it has ended.
pub open spec fn accepts(s: SessionView, e: EventView) -> bool {
    match s {
        SessionView::Waiting { .. } => e is Succeeded || e is Failed,
        SessionView::Ended => false,
        _ => e is Line || e is ReadFailed,
    }
}

// ----- transitions -----
/// Back to the main menu after showing `out`.
pub open spec fn to_menu(out: Seq<NoticeView>) -> (SessionView, ActionView) {
    (
        SessionView::Choosing,
        ActionView { out: out + says(menu_lines()), effect: EffectView::Ask(choice_prompt()) },
    )
}

pub open spec fn abort(reason: Seq<char>) -> (SessionView, ActionView) {
    (SessionView::Ended, ActionView { out: seq![], effect: EffectView::Abort(reason) })
}

pub open spec fn run(call: Call, failure: Failure) -> (SessionView, ActionView) {
    (
        SessionView::Waiting { failure, draft: None },
        ActionView { out: seq![], effect: EffectView::Run(call) },
    )
}

pub open spec fn start_form(f: Form) -> (SessionView, ActionView) {
    (
        SessionView::Answering { form: f, answers: seq![] },
        ActionView { out: says(form_intro(f)), effect: EffectView::Ask(form_questions(f)[0].0) },
    )
}

pub open spec fn open_sub_menu(m: SubMenu) -> (SessionView, ActionView) {
    (
        SessionView::SubChoosing { menu: m },
        ActionView { out: says(sub_menu_lines(m)), effect: EffectView::Ask(sub_choice_prompt()) },
    )
}

pub open spec fn is_quit(c: Seq<char>) -> bool {
    c == "0"@ || c == "q"@ || c == "quit"@ || c == "exit"@
}

/// What a main-menu choice (already trimmed) leads to.
pub open spec fn main_choice(c: Seq<char>) -> (SessionView, ActionView) {
    if c == "1"@ {
        (
            SessionView::Waiting { failure: Failure::Connect, draft: None },
            ActionView { out: seq![], effect: EffectView::Connect },
        )
    } else if c == "2"@ {
        run(query_spec(Query::Calendar), Failure::Query)
    } else if c == "3"@ {
        run(query_spec(Query::Time), Failure::Query)
    } else if c == "4"@ {
        run(query_spec(Query::Account), Failure::Query)
    } else if c == "5"@ {
        start_form(Form::Nearby)
    } else if c == "6"@ {
        run(address_list_spec(2), Failure::Query)
    } else if c == "7"@ {
        start_form(Form::NewAddress)
    } else if c == "8"@ {
        start_form(Form::Menu)
    } else if c == "9"@ {
        start_form(Form::Detail)
    } else if c == "10"@ {
        start_form(Form::StoreCoupons)
    } else if c == "11"@ {
        open_sub_menu(SubMenu::Coupons)
    } else if c == "12"@ {
        open_sub_menu(SubMenu::Mall)
    } else if c == "13"@ {
        start_form(Form::QuickOrder)
    } else if c == "14"@ {
        start_form(Form::OrderQuery)
    } else if is_quit(c) {
        (
            SessionView::Ended,
            ActionView { out: seq![NoticeView::Say(goodbye())], effect: EffectView::Exit },
        )
    } else {
        to_menu(seq![NoticeView::Say(invalid_choice_line())])
    }
}

/// What a second-level choice (already trimmed) leads to.
pub open spec fn sub_choice(m: SubMenu, c: Seq<char>) -> (SessionView, ActionView) {
    match m {
        SubMenu::Coupons => if c == "a"@ {
            run(query_spec(Query::MyCoupons), Failure::Query)
        } else if c == "b"@ {
            run(query_spec(Query::AvailableCoupons), Failure::Query)
        } else if c == "c"@ {
            run(query_spec(Query::ReceiveCoupons), Failure::ReceiveCoupons)
        } else {
            to_menu(seq![NoticeView::Say(invalid_sub_choice_line())])
        },
        SubMenu::Mall => if c == "a"@ {
            run(query_spec(Query::MallProducts), Failure::Query)
        } else if c == "b"@ {
            start_form(Form::MallDetail)
        } else if c == "c"@ {
            start_form(Form::MallExchange)
        } else {
            to_menu(seq![NoticeView::Say(invalid_sub_choice_line())])
        },
    }
}

/// The quick order the answers describe (order type 2 unless a number was given).
pub open spec fn draft_of(a: Seq<Option<Seq<char>>>) -> DraftView {
    DraftView {
        store: a[0]->0,
        be: a[1],
        address: a[2],
        order_type: i32_or(a[3]->0, 2),
        items: a[4]->0,
    }
}

/// Prices the drafted order, or reports that its item list is not JSON.
pub open spec fn price_draft(d: DraftView) -> (SessionView, ActionView) {
    let out = seq![NoticeView::Say(pricing_line())];
    match json_document(d.items) {
        Some(items) => (
            SessionView::Waiting { failure: Failure::Price, draft: Some(d) },
            ActionView {
                out,
                effect: EffectView::Run(price_spec(d.store, d.be, d.order_type, items)),
            },
        ),
        None => to_menu(out.push(NoticeView::Failed(Failure::Price, json_refusal_message(d.items)))),
    }
}

/// Places the confirmed order, or reports that its item list is not JSON.
pub open spec fn place_order(d: DraftView, take_way: Option<Seq<char>>, out: Seq<NoticeView>) -> (
    SessionView,
    ActionView,
) {
    match json_document(d.items) {
        Some(items) => (
            SessionView::Waiting { failure: Failure::Order, draft: None },
            ActionView {
                out,
                effect: EffectView::Run(
                    order_spec(d.store, d.be, d.address, items, d.order_type, take_way),
                ),
            },
        ),
        None => to_menu(out.push(NoticeView::Failed(Failure::Order, json_refusal_message(d.items)))),
    }
}

/// What a completed form leads to.
pub open spec fn complete(f: Form, a: Seq<Option<Seq<char>>>) -> (SessionView, ActionView) {
    match f {
        Form::Nearby => run(nearby_spec(1, 2, a[0], a[1]), Failure::Query),
        Form::NewAddress => run(
            address_add_spec(a[0]->0, a[1]->0, a[2]->0, a[3]->0, a[4]->0, a[5]),
            Failure::AddAddress,
        ),
        Form::Menu => run(menu_spec(a[0]->0, a[1], i32_or(a[2]->0, 2)), Failure::Query),
        Form::Detail => run(
            detail_spec(a[0]->0, a[1]->0, a[2], i32_or(a[3]->0, 2)),
            Failure::Query,
        ),
        Form::StoreCoupons => run(
            coupon_store_spec(a[0]->0, a[1]->0, i32_or(a[2]->0, 2)),
            Failure::Query,
        ),
        Form::MallDetail => run(mall_detail_spec(i64_or(a[0]->0, 0)), Failure::Query),
        Form::MallExchange => run(
            mall_exchange_spec(i64_or(a[0]->0, 0), i32_or(a[1]->0, 1)),
            Failure::Exchange,
        ),
        Form::QuickOrder => price_draft(draft_of(a)),
        Form::OrderQuery => run(order_query_spec(a[0]->0), Failure::Query),
    }
}

/// Records one more answer: asks the next question, or completes the form.
pub open spec fn record(f: Form, a: Seq<Option<Seq<char>>>) -> (SessionView, ActionView) {
    if a.len() == question_count(f) {
        complete(f, a)
    } else {
        (
            SessionView::Answering { form: f, answers: a },
            ActionView { out: seq![], effect: EffectView::Ask(form_questions(f)[a.len() as int].0) },
        )
    }
}

/// The session's transitions.
pub open spec fn next(s: SessionView, e: EventView) -> (SessionView, ActionView) {
    match s {
        SessionView::Choosing => match e {
            EventView::Line(raw) => main_choice(trimmed(raw)),
            EventView::ReadFailed(m) => abort(m),
            _ => (s, ActionView { out: seq![], effect: EffectView::Exit }),
        },
        SessionView::Answering { form, answers } => {
            let i = answers.len() as int;
            match e {
                EventView::Line(raw) => record(
                    form,
                    answers.push(
                        if may_skip(form, i) {
                            optional_answer(Some(raw))
                        } else {
                            Some(trimmed(raw))
                        },
                    ),
                ),
                EventView::ReadFailed(m) => if may_skip(form, i) {
                    record(form, answers.push(None))
                } else if form == Form::NewAddress {
                    to_menu(seq![NoticeView::Failed(Failure::AddAddress, m)])
                } else {
                    abort(m)
                },
                _ => (s, ActionView { out: seq![], effect: EffectView::Exit }),
            }
        },
        SessionView::SubChoosing { menu } => match e {
            EventView::Line(raw) => sub_choice(menu, trimmed(raw)),
            EventView::ReadFailed(m) => abort(m),
            _ => (s, ActionView { out: seq![], effect: EffectView::Exit }),
        },
        SessionView::Waiting { failure, draft } => match e {
            EventView::Succeeded => match draft {
                Some(d) => (
                    SessionView::Confirming { draft: d },
                    ActionView { out: seq![], effect: EffectView::Ask(confirm_prompt()) },
                ),
                None => to_menu(seq![]),
            },
            EventView::Failed(m) => to_menu(seq![NoticeView::Failed(failure, m)]),
            _ => (s, ActionView { out: seq![], effect: EffectView::Exit }),
        },
        SessionView::Confirming { draft } => match e {
            EventView::Line(raw) => if is_yes(trimmed(raw)) {
                let out = seq![NoticeView::Say(ordering_line())];
                if draft.order_type == 1 {
                    (
                        SessionView::TakeWay { draft },
                        ActionView { out, effect: EffectView::Ask(take_way_prompt()) },
                    )
                } else {
                    place_order(draft, None, out)
                }
            } else {
                to_menu(seq![NoticeView::Say(cancelled_line())])
            },
            EventView::ReadFailed(m) => abort(m),
            _ => (s, ActionView { out: seq![], effect: EffectView::Exit }),
        },
        SessionView::TakeWay { draft } => match e {
            EventView::Line(raw) => place_order(draft, optional_answer(Some(raw)), seq![]),
            EventView::ReadFailed(_) => place_order(draft, None, seq![]),
            _ => (s, ActionView { out: seq![], effect: EffectView::Exit }),
        },
        SessionView::Ended => (s, ActionView { out: seq![], effect: EffectView::Exit }),
    }
}


// ----- the executable session -----
pub open spec fn outcome(r: (Session, Action)) -> (SessionView, ActionView) {
    (r.0@, r.1@)
}

fn say(s: &str) -> (n: Notice)
    ensures
        n@ == NoticeView::Say(s@),
{
    Notice::Say(String::from_str(s))
}

fn push_notice(out: &mut Vec<Notice>, n: Notice)
    ensures
        notices_view(final(out)@) == notices_view(old(out)@).push(n@),
{
    let ghost before = out@;
    out.push(n);
    assert(notices_view(out@) =~= notices_view(before).push(n@));
}

fn push_say(out: &mut Vec<Notice>, s: &str)
    ensures
        notices_view(final(out)@) == notices_view(old(out)@).push(NoticeView::Say(s@)),
{
    push_notice(out, say(s));
}

fn no_notices() -> (out: Vec<Notice>)
    ensures
        notices_view(out@) == Seq::<NoticeView>::empty(),
{
    let out: Vec<Notice> = Vec::new();
    assert(notices_view(out@) =~= Seq::<NoticeView>::empty());
    out
}

fn one_notice(n: Notice) -> (out: Vec<Notice>)
    ensures
        notices_view(out@) == seq![n@],
{
    let mut out = no_notices();
    push_notice(&mut out, n);
    assert(notices_view(out@) =~= seq![n@]);
    out
}

fn push_menu(out: &mut Vec<Notice>)
    ensures
        notices_view(final(out)@) == notices_view(old(out)@) + says(menu_lines()),
{
    let ghost before = notices_view(out@);
    push_say(out, "--------------------------------------------------");
    push_say(out, "🍟 麦当劳 CLI 交互模式");
    push_say(out, "--------------------------------------------------");
    push_say(out, "1.  测试连接");
    push_say(out, "2.  查看活动日历");
    push_say(out, "3.  查看当前时间");
    push_say(out, "4.  查看我的账户/积分");
    push_say(out, "5.  查询附近门店");
    push_say(out, "6.  查看配送地址");
    push_say(out, "7.  新增配送地址");
    push_say(out, "8.  浏览菜单");
    push_say(out, "9.  查看餐品详情");
    push_say(out, "10. 门店优惠券");
    push_say(out, "11. 我的优惠券 / 一键领券 / 可领券");
    push_say(out, "12. 积分商城");
    push_say(out, "13. 快速点单（计算价格+下单）");
    push_say(out, "14. 查询订单详情");
    push_say(out, "0.  退出");
    push_say(out, "--------------------------------------------------");
    assert(notices_view(out@) =~= before + says(menu_lines()));
}

fn back_to_menu(out: Vec<Notice>) -> (r: (Session, Action))
    ensures
        outcome(r) == to_menu(notices_view(out@)),
{
    let mut out = out;
    push_menu(&mut out);
    (Session::Choosing, Action { out, effect: Effect::Ask(String::from_str("请输入选项: ")) })
}

fn abort_with(reason: String) -> (r: (Session, Action))
    ensures
        outcome(r) == abort(reason@),
{
    (Session::Ended, Action { out: no_notices(), effect: Effect::Abort(reason) })
}

fn run_call(call: ToolCall, failure: Failure) -> (r: (Session, Action))
    ensures
        outcome(r) == run(call@, failure),
{
    (
        Session::Waiting { failure, draft: None },
        Action { out: no_notices(), effect: Effect::Run(call) },
    )
}

fn run_query(q: Query, failure: Failure) -> (r: (Session, Action))
    ensures
        outcome(r) == run(query_spec(q), failure),
{
    run_call(query_call(q), failure)
}

/// The `i`-th question of a form and whether it may be left blank.
fn question(f: Form, i: usize) -> (r: (&'static str, bool))
    requires
        i < question_count(f),
    ensures
        (r.0@, r.1) == form_questions(f)[i as int],
{
    let store = "门店 storeCode: ";
    let be = "门店 beCode（到店取餐回车跳过）: ";
    let order_type = "订单类型 (1=到店, 2=外送): ";
    match f {
        Form::Nearby => if i == 0 {
            ("城市名: ", false)
        } else {
            ("关键词（商圈/学校/路名）: ", false)
        },
        Form::NewAddress => if i == 0 {
            ("城市名称: ", false)
        } else if i == 1 {
            ("联系人姓名: ", false)
        } else if i == 2 {
            ("联系电话: ", false)
        } else if i == 3 {
            ("配送地址（小区/楼栋）: ", false)
        } else if i == 4 {
            ("门牌号: ", false)
        } else {
            ("性别（先生/女士，回车跳过）: ", true)
        },
        Form::Menu => if i == 0 {
            (store, false)
        } else if i == 1 {
            (be, true)
        } else {
            (order_type, false)
        },
        Form::Detail => if i == 0 {
            ("商品 code: ", false)
        } else if i == 1 {
            (store, false)
        } else if i == 2 {
            (be, true)
        } else {
            (order_type, false)
        },
        Form::StoreCoupons => if i == 0 {
            (store, false)
        } else if i == 1 {
            ("门店 beCode: ", false)
        } else {
            (order_type, false)
        },
        Form::MallDetail => ("商品 spuId: ", false),
        Form::MallExchange => if i == 0 {
            ("商品 skuId: ", false)
        } else {
            ("兑换数量（默认1）: ", false)
        },
        Form::QuickOrder => if i == 0 {
            (store, false)
        } else if i == 1 {
            (be, true)
        } else if i == 2 {
            ("地址 ID（到店取餐回车跳过）: ", true)
        } else if i == 3 {
            (order_type, false)
        } else {
            ("商品列表 JSON: [{\"productCode\":\"xxx\",\"quantity\":1}]: ", false)
        },
        Form::OrderQuery => ("订单号 orderId: ", false),
    }
}

fn form_start(f: Form) -> (r: (Session, Action))
    ensures
        outcome(r) == start_form(f),
{
    let mut out = no_notices();
    match f {
        Form::NewAddress => {
            push_say(&mut out, "请输入配送地址信息（麦乐送 beType=2）:");
        },
        Form::QuickOrder => {
            push_say(&mut out, "--- 快速点单流程 ---");
            push_say(&mut out, "提示: 门店信息请先从【查看配送地址】或【查询附近门店】中获取");
        },
        _ => {},
    }
    assert(notices_view(out@) =~= says(form_intro(f)));
    let answers: Vec<Option<String>> = Vec::new();
    assert(answers_view(answers@) =~= Seq::<Option<Seq<char>>>::empty());
    let (q, _) = question(f, 0);
    (
        Session::Answering { form: f, answers },
        Action { out, effect: Effect::Ask(String::from_str(q)) },
    )
}

fn sub_menu_start(m: SubMenu) -> (r: (Session, Action))
    ensures
        outcome(r) == open_sub_menu(m),
{
    let mut out = no_notices();
    match m {
        SubMenu::Coupons => {
            push_say(&mut out, "a. 我的优惠券");
            push_say(&mut out, "b. 可领优惠券列表");
            push_say(&mut out, "c. 一键领券");
        },
        SubMenu::Mall => {
            push_say(&mut out, "a. 积分兑换商品列表");
            push_say(&mut out, "b. 积分兑换商品详情");
            push_say(&mut out, "c. 积分兑换下单");
        },
    }
    assert(notices_view(out@) =~= says(sub_menu_lines(m)));
    (
        Session::SubChoosing { menu: m },
        Action { out, effect: Effect::Ask(String::from_str("选择: ")) },
    )
}

fn on_main_choice(c: &str) -> (r: (Session, Action))
    ensures
        outcome(r) == main_choice(c@),
{
    if same_text(c, "1") {
        (
            Session::Waiting { failure: Failure::Connect, draft: None },
            Action { out: no_notices(), effect: Effect::Connect },
        )
    } else if same_text(c, "2") {
        run_query(Query::Calendar, Failure::Query)
    } else if same_text(c, "3") {
        run_query(Query::Time, Failure::Query)
    } else if same_text(c, "4") {
        run_query(Query::Account, Failure::Query)
    } else if same_text(c, "5") {
        form_start(Form::Nearby)
    } else if same_text(c, "6") {
        run_call(address_list_call(2), Failure::Query)
    } else if same_text(c, "7") {
        form_start(Form::NewAddress)
    } else if same_text(c, "8") {
        form_start(Form::Menu)
    } else if same_text(c, "9") {
        form_start(Form::Detail)
    } else if same_text(c, "10") {
        form_start(Form::StoreCoupons)
    } else if same_text(c, "11") {
        sub_menu_start(SubMenu::Coupons)
    } else if same_text(c, "12") {
        sub_menu_start(SubMenu::Mall)
    } else if same_text(c, "13") {
        form_start(Form::QuickOrder)
    } else if same_text(c, "14") {
        form_start(Form::OrderQuery)
    } else if same_text(c, "0") || same_text(c, "q") || same_text(c, "quit") || same_text(
        c,
        "exit",
    ) {
        (Session::Ended, Action { out: one_notice(say("再见，祝您用餐愉快! 🍔")), effect: Effect::Exit })
    } else {
        back_to_menu(one_notice(say("无效选项，请重新输入")))
    }
}

fn on_sub_choice(m: SubMenu, c: &str) -> (r: (Session, Action))
    ensures
        outcome(r) == sub_choice(m, c@),
{
    match m {
        SubMenu::Coupons => if same_text(c, "a") {
            run_query(Query::MyCoupons, Failure::Query)
        } else if same_text(c, "b") {
            run_query(Query::AvailableCoupons, Failure::Query)
        } else if same_text(c, "c") {
            run_query(Query::ReceiveCoupons, Failure::ReceiveCoupons)
        } else {
            back_to_menu(one_notice(say("无效选择")))
        },
        SubMenu::Mall => if same_text(c, "a") {
            run_query(Query::MallProducts, Failure::Query)
        } else if same_text(c, "b") {
            form_start(Form::MallDetail)
        } else if same_text(c, "c") {
            form_start(Form::MallExchange)
        } else {
            back_to_menu(one_notice(say("无效选择")))
        },
    }
}

/// The answer to the `i`-th question, which may not be skipped.
fn given(a: &Vec<Option<String>>, i: usize) -> (s: &str)
    requires
        i < a.len(),
        a@[i as int] is Some,
    ensures
        answers_view(a@)[i as int] == Some(s@),
{
    match &a[i] {
        Some(t) => t.as_str(),
        None => "",
    }
}

/// The answer to the `i`-th question, which may have been skipped.
fn maybe(a: &Vec<Option<String>>, i: usize) -> (s: Option<&str>)
    requires
        i < a.len(),
    ensures
        opt_str(s) == answers_view(a@)[i as int],
{
    match &a[i] {
        Some(t) => Some(t.as_str()),
        None => None,
    }
}

fn owned(s: Option<&str>) -> (r: Option<String>)
    ensures
        opt_text(r) == opt_str(s),
{
    match s {
        Some(t) => Some(String::from_str(t)),
        None => None,
    }
}

fn price_quick_order(d: Draft) -> (r: (Session, Action))
    ensures
        outcome(r) == price_draft(d@),
{
    let mut out = one_notice(say("\n正在计算价格..."));
    match price_call(d.store.as_str(), as_str_opt(&d.be), d.order_type, d.items.as_str()) {
        Ok(c) => (
            Session::Waiting { failure: Failure::Price, draft: Some(d) },
            Action { out, effect: Effect::Run(c) },
        ),
        Err(e) => {
            push_notice(&mut out, Notice::Failed(Failure::Price, e.message));
            back_to_menu(out)
        },
    }
}

fn place_quick_order(d: Draft, take_way: Option<String>, out: Vec<Notice>) -> (r: (
    Session,
    Action,
))
    ensures
        outcome(r) == place_order(d@, opt_text(take_way), notices_view(out@)),
{
    let mut out = out;
    match order_call(
        d.store.as_str(),
        as_str_opt(&d.be),
        as_str_opt(&d.address),
        d.items.as_str(),
        d.order_type,
        as_str_opt(&take_way),
    ) {
        Ok(c) => (
            Session::Waiting { failure: Failure::Order, draft: None },
            Action { out, effect: Effect::Run(c) },
        ),
        Err(e) => {
            push_notice(&mut out, Notice::Failed(Failure::Order, e.message));
            back_to_menu(out)
        },
    }
}

pub open spec fn answered(f: Form, a: Seq<Option<String>>) -> bool {
    forall|i: int| 0 <= i < a.len() && !may_skip(f, i) ==> (#[trigger] a[i]) is Some
}

fn complete_form(f: Form, a: Vec<Option<String>>) -> (r: (Session, Action))
    requires
        a.len() == question_count(f),
        answered(f, a@),
    ensures
        outcome(r) == complete(f, answers_view(a@)),
{
    let ghost v = answers_view(a@);
    match f {
        Form::Nearby => run_call(
            nearby_call(1, 2, Some(given(&a, 0)), Some(given(&a, 1))),
            Failure::Query,
        ),
        Form::NewAddress => {
            let fields = NewAddress {
                city: String::from_str(given(&a, 0)),
                contact_name: String::from_str(given(&a, 1)),
                phone: String::from_str(given(&a, 2)),
                address: String::from_str(given(&a, 3)),
                address_detail: String::from_str(given(&a, 4)),
                gender: owned(maybe(&a, 5)),
            };
            run_call(address_add_call(&fields), Failure::AddAddress)
        },
        Form::Menu => run_call(
            menu_call(given(&a, 0), maybe(&a, 1), parse_i32_or(given(&a, 2), 2)),
            Failure::Query,
        ),
        Form::Detail => run_call(
            detail_call(given(&a, 0), given(&a, 1), maybe(&a, 2), parse_i32_or(given(&a, 3), 2)),
            Failure::Query,
        ),
        Form::StoreCoupons => run_call(
            coupon_store_call(given(&a, 0), given(&a, 1), parse_i32_or(given(&a, 2), 2)),
            Failure::Query,
        ),
        Form::MallDetail => run_call(
            mall_detail_call(parse_i64_or(given(&a, 0), 0)),
            Failure::Query,
        ),
        Form::MallExchange => run_call(
            mall_exchange_call(parse_i64_or(given(&a, 0), 0), parse_i32_or(given(&a, 1), 1)),
            Failure::Exchange,
        ),
        Form::QuickOrder => {
            let d = Draft {
                store: String::from_str(given(&a, 0)),
                be: owned(maybe(&a, 1)),
                address: owned(maybe(&a, 2)),
                order_type: parse_i32_or(given(&a, 3), 2),
                items: String::from_str(given(&a, 4)),
            };
            assert(d@ == draft_of(v));
            price_quick_order(d)
        },
        Form::OrderQuery => run_call(order_query_call(given(&a, 0)), Failure::Query),
    }
}

fn record_answer(f: Form, a: Vec<Option<String>>) -> (r: (Session, Action))
    requires
        a.len() <= question_count(f),
        answered(f, a@),
    ensures
        outcome(r) == record(f, answers_view(a@)),
        well_formed(r.0@),
{
    let n = a.len();
    if n == form_size(f) {
        let r = complete_form(f, a);
        proof {
            lemma_complete_well_formed(f, answers_view(a@));
        }
        r
    } else {
        let (q, _) = question(f, n);
        (Session::Answering { form: f, answers: a }, Action { out: no_notices(), effect: Effect::Ask(String::from_str(q)) })
    }
}

fn form_size(f: Form) -> (n: usize)
    ensures
        n == question_count(f),
{
    match f {
        Form::Nearby => 2,
        Form::NewAddress => 6,
        Form::Menu => 3,
        Form::Detail => 4,
        Form::StoreCoupons => 3,
        Form::MallDetail => 1,
        Form::MallExchange => 2,
        Form::QuickOrder => 5,
        Form::OrderQuery => 1,
    }
}

/// Completing a form never leaves the session inside a form.
proof fn lemma_complete_well_formed(f: Form, a: Seq<Option<Seq<char>>>)
    ensures
        well_formed(complete(f, a).0),
{
}


/// An interactive ordering session. Its state is kept well formed.
pub struct Dialog {
    state: Session,
}

impl View for Dialog {
    type V = SessionView;

    closed spec fn view(&self) -> SessionView {
        self.state@
    }
}

impl Dialog {
    #[verifier::type_invariant]
    closed spec fn inv(self) -> bool {
        well_formed(self.state@)
    }

    /// A new session: it shows the main menu and asks for a choice.
    pub fn start() -> (r: (Dialog, Action))
        ensures
            (r.0@, r.1@) == to_menu(seq![]),
    {
        let (state, action) = back_to_menu(no_notices());
        (Dialog { state }, action)
    }

    /// Whether the session can take `event` now.
    pub fn accepts(&self, event: &Event) -> (b: bool)
        ensures
            b == accepts(self@, event@),
    {
        match (&self.state, event) {
            (Session::Waiting { .. }, Event::Succeeded) => true,
            (Session::Waiting { .. }, Event::Failed(_)) => true,
            (Session::Waiting { .. }, _) => false,
            (Session::Ended, _) => false,
            (_, Event::Line(_)) => true,
            (_, Event::ReadFailed(_)) => true,
            _ => false,
        }
    }

    /// Whether the session is over.
    pub fn is_over(&self) -> (b: bool)
        ensures
            b == (self@ is Ended),
    {
        match &self.state {
            Session::Ended => true,
            _ => false,
        }
    }

    /// Takes one event and says what to show and do next, as `next` defines.
    pub fn step(self, event: Event) -> (r: (Dialog, Action))
        requires
            accepts(self@, event@),
        ensures
            (r.0@, r.1@) == next(self@, event@),
    {
        proof {
            use_type_invariant(&self);
        }
        let Dialog { state } = self;
        let (state, action) = advance(state, event);
        (Dialog { state }, action)
    }
}

fn advance(s: Session, e: Event) -> (r: (Session, Action))
    requires
        well_formed(s@),
        accepts(s@, e@),
    ensures
        outcome(r) == next(s@, e@),
        well_formed(r.0@),
{
    match s {
        Session::Choosing => match e {
            Event::Line(raw) => {
                let c = trim_line(raw.as_str());
                let r = on_main_choice(c.as_str());
                proof {
                    lemma_main_choice_well_formed(c@);
                }
                r
            },
            Event::ReadFailed(m) => abort_with(m),
            _ => (Session::Ended, Action { out: no_notices(), effect: Effect::Exit }),
        },
        Session::Answering { form, answers } => {
            let ghost before = answers@;
            let i = answers.len();
            let (_, skip) = question(form, i);
            proof {
                assert forall|k: int| 0 <= k < before.len() && !may_skip(form, k) implies (
                #[trigger] before[k]) is Some by {
                    assert(answers_view(before)[k] == opt_text(before[k]));
                }
            }
            let mut answers = answers;
            match e {
                Event::Line(raw) => {
                    let a = if skip {
                        read_line_opt(Some(raw.as_str()))
                    } else {
                        Some(trim_line(raw.as_str()))
                    };
                    answers.push(a);
                    assert(answers_view(answers@) =~= answers_view(before).push(opt_text(a)));
                    assert forall|k: int| 0 <= k < answers@.len() && !may_skip(form, k) implies (
                    #[trigger] answers@[k]) is Some by {
                        if k < before.len() {
                            assert(answers@[k] == before[k]);
                        }
                    }
                    record_answer(form, answers)
                },
                Event::ReadFailed(m) => {
                    if skip {
                        answers.push(None);
                        assert(answers_view(answers@) =~= answers_view(before).push(None));
                        assert forall|k: int| 0 <= k < answers@.len() && !may_skip(form, k) implies (
                        #[trigger] answers@[k]) is Some by {
                            if k < before.len() {
                                assert(answers@[k] == before[k]);
                            }
                        }
                        record_answer(form, answers)
                    } else if form == Form::NewAddress {
                        back_to_menu(one_notice(Notice::Failed(Failure::AddAddress, m)))
                    } else {
                        abort_with(m)
                    }
                },
                _ => (Session::Ended, Action { out: no_notices(), effect: Effect::Exit }),
            }
        },
        Session::SubChoosing { menu } => match e {
            Event::Line(raw) => {
                let c = trim_line(raw.as_str());
                let r = on_sub_choice(menu, c.as_str());
                proof {
                    lemma_sub_choice_well_formed(menu, c@);
                }
                r
            },
            Event::ReadFailed(m) => abort_with(m),
            _ => (Session::Ended, Action { out: no_notices(), effect: Effect::Exit }),
        },
        Session::Waiting { failure, draft } => match e {
            Event::Succeeded => match draft {
                Some(d) => (
                    Session::Confirming { draft: d },
                    Action {
                        out: no_notices(),
                        effect: Effect::Ask(String::from_str("确认下单? (y/n): ")),
                    },
                ),
                None => back_to_menu(no_notices()),
            },
            Event::Failed(m) => back_to_menu(one_notice(Notice::Failed(failure, m))),
            _ => (Session::Ended, Action { out: no_notices(), effect: Effect::Exit }),
        },
        Session::Confirming { draft } => match e {
            Event::Line(raw) => {
                let t = trim_line(raw.as_str());
                if confirms(t.as_str()) {
                    let out = one_notice(say("\n正在创建订单..."));
                    if draft.order_type == 1 {
                        (
                            Session::TakeWay { draft },
                            Action {
                                out,
                                effect: Effect::Ask(
                                    String::from_str(
                                        "取餐方式编码 takeWayCode（从calculate-price结果获取，回车跳过）: ",
                                    ),
                                ),
                            },
                        )
                    } else {
                        let r = place_quick_order(draft, None, out);
                        proof {
                            lemma_place_order_well_formed(draft@, None, notices_view(out@));
                        }
                        r
                    }
                } else {
                    back_to_menu(one_notice(say("已取消下单")))
                }
            },
            Event::ReadFailed(m) => abort_with(m),
            _ => (Session::Ended, Action { out: no_notices(), effect: Effect::Exit }),
        },
        Session::TakeWay { draft } => match e {
            Event::Line(raw) => {
                let tw = read_line_opt(Some(raw.as_str()));
                let ghost d = draft@;
                let r = place_quick_order(draft, tw, no_notices());
                proof {
                    lemma_place_order_well_formed(d, opt_text(tw), seq![]);
                }
                r
            },
            Event::ReadFailed(_) => {
                let ghost d = draft@;
                let r = place_quick_order(draft, None, no_notices());
                proof {
                    lemma_place_order_well_formed(d, None, seq![]);
                }
                r
            },
            _ => (Session::Ended, Action { out: no_notices(), effect: Effect::Exit }),
        },
        Session::Ended => (Session::Ended, Action { out: no_notices(), effect: Effect::Exit }),
    }
}

proof fn lemma_main_choice_well_formed(c: Seq<char>)
    ensures
        well_formed(main_choice(c).0),
{
}

proof fn lemma_sub_choice_well_formed(m: SubMenu, c: Seq<char>)
    ensures
        well_formed(sub_choice(m, c).0),
{
}

proof fn lemma_place_order_well_formed(d: DraftView, tw: Option<Seq<char>>, out: Seq<NoticeView>)
    ensures
        well_formed(place_order(d, tw, out).0),
{
}

} // verus!
