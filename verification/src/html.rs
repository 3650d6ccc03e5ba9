//! Pieces of HTML. Whatever comes from outside is escaped before it is put into a page.

use vstd::prelude::*;

use crate::assets::{MANAGER_SCRIPT, MANAGER_STYLE};
use crate::text::{chars_of, option_view, trim, trim_spec};

verus! {

/// What a character is written as in HTML.
pub open spec fn escaped_char(c: char) -> Seq<char> {
    if c == '&' {
        "&amp;"@
    } else if c == '<' {
        "&lt;"@
    } else if c == '>' {
        "&gt;"@
    } else if c == '"' {
        "&quot;"@
    } else if c == '\'' {
        "&#39;"@
    } else {
        seq![c]
    }
}

/// What a text is written as in HTML.
pub open spec fn escaped(s: Seq<char>) -> Seq<char>
    decreases s.len(),
{
    if s.len() == 0 {
        Seq::empty()
    } else {
        escaped(s.drop_last()) + escaped_char(s.last())
    }
}

/// What a text is written as in HTML.
pub fn escape_html(value: &str) -> (html: String)
    ensures
        html@ == escaped(value@),
{
    let chars = chars_of(value);
    let n: usize = chars.len();
    let mut html = String::new();
    assert(html@ =~= escaped(value@.take(0)));
    for i in 0..n
        invariant
            n == value@.len(),
            chars@ == value@,
            html@ == escaped(value@.take(i as int)),
    {
        assert(value@.take(i + 1).drop_last() =~= value@.take(i as int));
        let c = chars[i];
        if c == '&' {
            html.append("&amp;");
        } else if c == '<' {
            html.append("&lt;");
        } else if c == '>' {
            html.append("&gt;");
        } else if c == '"' {
            html.append("&quot;");
        } else if c == '\'' {
            html.append("&#39;");
        } else {
            let ghost before = html@;
            html.push(c);
            assert(html@ =~= before + seq![c]);
        }
    }
    assert(value@.take(n as int) =~= value@);
    html
}

/// Whether a character can open or close a tag or an attribute value.
pub open spec fn is_markup(c: char) -> bool {
    c == '<' || c == '>' || c == '"' || c == '\''
}

/// The characters of the entities.
proof fn lemma_entities()
    ensures
        "&amp;"@ == seq!['&', 'a', 'm', 'p', ';'],
        "&lt;"@ == seq!['&', 'l', 't', ';'],
        "&gt;"@ == seq!['&', 'g', 't', ';'],
        "&quot;"@ == seq!['&', 'q', 'u', 'o', 't', ';'],
        "&#39;"@ == seq!['&', '#', '3', '9', ';'],
{
    reveal_strlit("&amp;");
    reveal_strlit("&lt;");
    reveal_strlit("&gt;");
    reveal_strlit("&quot;");
    reveal_strlit("&#39;");
    assert("&amp;"@ =~= seq!['&', 'a', 'm', 'p', ';']);
    assert("&lt;"@ =~= seq!['&', 'l', 't', ';']);
    assert("&gt;"@ =~= seq!['&', 'g', 't', ';']);
    assert("&quot;"@ =~= seq!['&', 'q', 'u', 'o', 't', ';']);
    assert("&#39;"@ =~= seq!['&', '#', '3', '9', ';']);
}

/// An escaped text cannot open or close a tag or an attribute value.
pub proof fn law_escaped_text_has_no_markup(s: Seq<char>)
    ensures
        forall|i: int| 0 <= i < escaped(s).len() ==> !is_markup(#[trigger] escaped(s)[i]),
    decreases s.len(),
{
    if s.len() > 0 {
        law_escaped_text_has_no_markup(s.drop_last());
        lemma_entities();
        let before = escaped(s.drop_last());
        let last = escaped_char(s.last());
        assert forall|i: int| 0 <= i < escaped(s).len() implies !is_markup(
            #[trigger] escaped(s)[i],
        ) by {
            if i < before.len() {
                assert(escaped(s)[i] == before[i]);
            } else {
                assert(escaped(s)[i] == last[i - before.len()]);
            }
        }
    }
}

/// Escaping a text in parts is escaping it whole.
pub proof fn law_escaping_parts(a: Seq<char>, b: Seq<char>)
    ensures
        escaped(a + b) == escaped(a) + escaped(b),
    decreases b.len(),
{
    if b.len() == 0 {
        assert(a + b =~= a);
        assert(escaped(a) + escaped(b) =~= escaped(a));
    } else {
        law_escaping_parts(a, b.drop_last());
        assert((a + b).drop_last() =~= a + b.drop_last());
        assert(escaped(a) + escaped(b.drop_last()) + escaped_char(b.last()) =~= escaped(a) + escaped(
            b,
        ));
    }
}

/// What one character is written as is no prefix of what another is written as.
proof fn lemma_escaped_char_prefix(c: char, d: char, x: Seq<char>, y: Seq<char>)
    requires
        escaped_char(c) + x == escaped_char(d) + y,
    ensures
        c == d,
        x == y,
{
    lemma_entities();
    let a = escaped_char(c);
    let b = escaped_char(d);
    let s = a + x;
    let t = b + y;
    assert(s[0] == a[0]);
    assert(t[0] == b[0]);
    if a.len() >= 2 && b.len() >= 2 {
        assert(s[1] == a[1]);
        assert(t[1] == b[1]);
    }
    assert(c == d);
    assert(x =~= s.skip(a.len() as int));
    assert(y =~= t.skip(b.len() as int));
}

/// Nothing is lost by escaping: different texts are written differently.
pub proof fn law_escaping_is_injective(a: Seq<char>, b: Seq<char>)
    requires
        escaped(a) == escaped(b),
    ensures
        a == b,
    decreases a.len(),
{
    lemma_entities();
    if a.len() == 0 || b.len() == 0 {
        assert(a.len() == 0 && b.len() == 0) by {
            if a.len() > 0 {
                assert(escaped_char(a.last()).len() > 0);
            }
            if b.len() > 0 {
                assert(escaped_char(b.last()).len() > 0);
            }
        }
        assert(a =~= b);
    } else {
        lemma_escaped_front(a);
        lemma_escaped_front(b);
        lemma_escaped_char_prefix(a[0], b[0], escaped(a.skip(1)), escaped(b.skip(1)));
        law_escaping_is_injective(a.skip(1), b.skip(1));
        assert(a =~= seq![a[0]] + a.skip(1));
        assert(b =~= seq![b[0]] + b.skip(1));
    }
}

/// The first character of an escaped text.
proof fn lemma_escaped_front(s: Seq<char>)
    requires
        s.len() > 0,
    ensures
        escaped(s) == escaped_char(s[0]) + escaped(s.skip(1)),
{
    let one = seq![s[0]];
    law_escaping_parts(one, s.skip(1));
    assert(one + s.skip(1) =~= s);
    assert(one.drop_last() =~= Seq::<char>::empty());
    assert(escaped(one.drop_last()) =~= Seq::<char>::empty());
    assert(escaped(one) == escaped(one.drop_last()) + escaped_char(one.last()));
    assert(escaped(one) =~= escaped_char(s[0]));
}

/// A text without white space around it, or a fallback where it is blank.
pub open spec fn text_or(value: Seq<char>, fallback: Seq<char>) -> Seq<char> {
    if trim_spec(value).len() == 0 {
        fallback
    } else {
        trim_spec(value)
    }
}

/// A text without white space around it, or a fallback where it is blank.
pub fn display_text(value: &str, fallback: &str) -> (r: String)
    ensures
        r@ == text_or(value@, fallback@),
{
    let trimmed = trim(value);
    if trimmed.as_str().is_empty() {
        fallback.to_owned()
    } else {
        trimmed
    }
}

/// A whole page.
pub open spec fn page_html(title: Seq<char>, body: Seq<char>) -> Seq<char> {
    r#"<!DOCTYPE html><html lang="en"><head><meta charset="utf-8"/><meta name="viewport" content="width=device-width, initial-scale=1"/><title>"#@
        + escaped(title)
        + "</title><style>"@
        + MANAGER_STYLE@
        + "</style></head><body>"@
        + body
        + "<script>"@
        + MANAGER_SCRIPT@
        + "</script></body></html>"@
}

/// A whole page.
pub fn render_page(title: &str, body: &str) -> (html: String)
    ensures
        html@ == page_html(title@, body@),
{
    let mut html = String::from_str(
        r#"<!DOCTYPE html><html lang="en"><head><meta charset="utf-8"/><meta name="viewport" content="width=device-width, initial-scale=1"/><title>"#,
    );
    html.append(escape_html(title).as_str());
    html.append("</title><style>");
    html.append(MANAGER_STYLE);
    html.append("</style></head><body>");
    html.append(body);
    html.append("<script>");
    html.append(MANAGER_SCRIPT);
    html.append("</script></body></html>");
    html
}

/// An input of a form.
pub open spec fn input_field_html(
    label: Seq<char>,
    name: Seq<char>,
    kind: Seq<char>,
    value: Seq<char>,
    help: Seq<char>,
) -> Seq<char> {
    r#"<label class="field"><span>"#@
        + escaped(label)
        + r#"</span><input type=""#@
        + escaped(kind)
        + r#"" name=""#@
        + escaped(name)
        + r#"" value=""#@
        + escaped(value)
        + r#""/><small>"#@
        + escaped(help)
        + "</small></label>"@
}

/// An input of a form.
pub fn render_input_field(
    label: &str,
    name: &str,
    kind: &str,
    value: &str,
    help: &str,
) -> (html: String)
    ensures
        html@ == input_field_html(label@, name@, kind@, value@, help@),
{
    let mut html = String::from_str(r#"<label class="field"><span>"#);
    html.append(escape_html(label).as_str());
    html.append(r#"</span><input type=""#);
    html.append(escape_html(kind).as_str());
    html.append(r#"" name=""#);
    html.append(escape_html(name).as_str());
    html.append(r#"" value=""#);
    html.append(escape_html(value).as_str());
    html.append(r#""/><small>"#);
    html.append(escape_html(help).as_str());
    html.append("</small></label>");
    html
}

/// A choice of a form; the options are HTML.
pub open spec fn select_field_html(
    label: Seq<char>,
    name: Seq<char>,
    options: Seq<char>,
    help: Seq<char>,
) -> Seq<char> {
    r#"<label class="field"><span>"#@
        + escaped(label)
        + r#"</span><select name=""#@
        + escaped(name)
        + r#"">"#@
        + options
        + "</select><small>"@
        + escaped(help)
        + "</small></label>"@
}

/// A choice of a form; the options are HTML.
pub fn render_select_field(label: &str, name: &str, options: &str, help: &str) -> (html: String)
    ensures
        html@ == select_field_html(label@, name@, options@, help@),
{
    let mut html = String::from_str(r#"<label class="field"><span>"#);
    html.append(escape_html(label).as_str());
    html.append(r#"</span><select name=""#);
    html.append(escape_html(name).as_str());
    html.append(r#"">"#);
    html.append(options);
    html.append("</select><small>");
    html.append(escape_html(help).as_str());
    html.append("</small></label>");
    html
}

/// A text of a form.
pub open spec fn textarea_field_html(
    label: Seq<char>,
    name: Seq<char>,
    value: Seq<char>,
    help: Seq<char>,
) -> Seq<char> {
    r#"<label class="field"><span>"#@
        + escaped(label)
        + r#"</span><textarea name=""#@
        + escaped(name)
        + r#"">"#@
        + escaped(value)
        + "</textarea><small>"@
        + escaped(help)
        + "</small></label>"@
}

/// A text of a form.
pub fn render_textarea_field(label: &str, name: &str, value: &str, help: &str) -> (html: String)
    ensures
        html@ == textarea_field_html(label@, name@, value@, help@),
{
    let mut html = String::from_str(r#"<label class="field"><span>"#);
    html.append(escape_html(label).as_str());
    html.append(r#"</span><textarea name=""#);
    html.append(escape_html(name).as_str());
    html.append(r#"">"#);
    html.append(escape_html(value).as_str());
    html.append("</textarea><small>");
    html.append(escape_html(help).as_str());
    html.append("</small></label>");
    html
}

/// The attribute of a checked switch.
pub open spec fn checked_attribute(checked: bool) -> Seq<char> {
    if checked {
        "checked"@
    } else {
        ""@
    }
}

/// The attribute of a checked switch.
fn checked_text(checked: bool) -> (r: &'static str)
    ensures
        r@ == checked_attribute(checked),
{
    if checked {
        "checked"
    } else {
        ""
    }
}

/// A switch of a form.
pub open spec fn toggle_field_html(
    label: Seq<char>,
    name: Seq<char>,
    checked: bool,
    help: Seq<char>,
) -> Seq<char> {
    r#"<div class="toggle"><label><input type="checkbox" name=""#@
        + escaped(name)
        + r#"" "#@
        + checked_attribute(checked)
        + " /><span>"@
        + escaped(label)
        + "</span></label><small>"@
        + escaped(help)
        + "</small></div>"@
}

/// A switch of a form.
pub fn render_toggle_field(label: &str, name: &str, checked: bool, help: &str) -> (html: String)
    ensures
        html@ == toggle_field_html(label@, name@, checked, help@),
{
    let mut html = String::from_str(r#"<div class="toggle"><label><input type="checkbox" name=""#);
    html.append(escape_html(name).as_str());
    html.append(r#"" "#);
    html.append(checked_text(checked));
    html.append(" /><span>");
    html.append(escape_html(label).as_str());
    html.append("</span></label><small>");
    html.append(escape_html(help).as_str());
    html.append("</small></div>");
    html
}

/// The buttons of a card.
pub open spec fn card_actions_html(
    form_id: Seq<char>,
    save_label: Seq<char>,
    helper_text: Seq<char>,
    delete_action: Seq<char>,
    delete_label: Seq<char>,
    confirm_message: Seq<char>,
) -> Seq<char> {
    r#"<div class="form-actions"><p class="action-copy">"#@
        + escaped(helper_text)
        + r#"</p><div class="action-group"><button class="btn" type="submit" form=""#@
        + escaped(form_id)
        + r#"">"#@
        + escaped(save_label)
        + r#"</button><form class="danger-inline" method="post" action=""#@
        + escaped(delete_action)
        + r#"" data-confirm=""#@
        + escaped(confirm_message)
        + r#""><button class="btn-danger" type="submit">"#@
        + escaped(delete_label)
        + "</button></form></div></div>"@
}

/// The buttons of a card.
pub fn render_card_actions(
    form_id: &str,
    save_label: &str,
    helper_text: &str,
    delete_action: &str,
    delete_label: &str,
    confirm_message: &str,
) -> (html: String)
    ensures
        html@ == card_actions_html(
            form_id@,
            save_label@,
            helper_text@,
            delete_action@,
            delete_label@,
            confirm_message@,
        ),
{
    let mut html = String::from_str(r#"<div class="form-actions"><p class="action-copy">"#);
    html.append(escape_html(helper_text).as_str());
    html.append(r#"</p><div class="action-group"><button class="btn" type="submit" form=""#);
    html.append(escape_html(form_id).as_str());
    html.append(r#"">"#);
    html.append(escape_html(save_label).as_str());
    html.append(r#"</button><form class="danger-inline" method="post" action=""#);
    html.append(escape_html(delete_action).as_str());
    html.append(r#"" data-confirm=""#);
    html.append(escape_html(confirm_message).as_str());
    html.append(r#""><button class="btn-danger" type="submit">"#);
    html.append(escape_html(delete_label).as_str());
    html.append("</button></form></div></div>");
    html
}

/// A badge.
pub open spec fn badge_html(label: Seq<char>, class_name: Seq<char>) -> Seq<char> {
    r#"<span class="pill "#@
        + escaped(class_name)
        + r#"">"#@
        + escaped(label)
        + "</span>"@
}

/// A badge.
pub fn render_badge(label: &str, class_name: &str) -> (html: String)
    ensures
        html@ == badge_html(label@, class_name@),
{
    let mut html = String::from_str(r#"<span class="pill "#);
    html.append(escape_html(class_name).as_str());
    html.append(r#"">"#);
    html.append(escape_html(label).as_str());
    html.append("</span>");
    html
}

/// A labelled value, which is HTML.
pub open spec fn meta_card_html(label: Seq<char>, value_html: Seq<char>) -> Seq<char> {
    r#"<div class="meta-card"><strong>"#@
        + escaped(label)
        + "</strong>"@
        + value_html
        + "</div>"@
}

/// A labelled value, which is HTML.
pub fn render_meta_card(label: &str, value_html: &str) -> (html: String)
    ensures
        html@ == meta_card_html(label@, value_html@),
{
    let mut html = String::from_str(r#"<div class="meta-card"><strong>"#);
    html.append(escape_html(label).as_str());
    html.append("</strong>");
    html.append(value_html);
    html.append("</div>");
    html
}

/// A text in a fixed-width font.
pub open spec fn code_html(text: Seq<char>) -> Seq<char> {
    "<code>"@
        + escaped(text)
        + "</code>"@
}

/// A text in a fixed-width font.
pub fn render_code(text: &str) -> (html: String)
    ensures
        html@ == code_html(text@),
{
    let mut html = String::from_str("<code>");
    html.append(escape_html(text).as_str());
    html.append("</code>");
    html
}

/// What is shown when the manager fails.
pub open spec fn error_body_html(message: Seq<char>) -> Seq<char> {
    r#"<div class="page"><section class="card strong"><span class="eyebrow">Manager error</span><h1>Something went wrong inside NTZ Manager</h1><p class="lead">The request reached the manager, but part of the control-plane workflow failed.</p><pre class="error-block">"#@
        + escaped(message)
        + r#"</pre><a class="btn-secondary" href="/">Return to dashboard</a></section></div>"#@
}

/// What is shown when the manager fails.
pub fn render_error_body(message: &str) -> (html: String)
    ensures
        html@ == error_body_html(message@),
{
    let mut html = String::from_str(
        r#"<div class="page"><section class="card strong"><span class="eyebrow">Manager error</span><h1>Something went wrong inside NTZ Manager</h1><p class="lead">The request reached the manager, but part of the control-plane workflow failed.</p><pre class="error-block">"#,
    );
    html.append(escape_html(message).as_str());
    html.append(
        r#"</pre><a class="btn-secondary" href="/">Return to dashboard</a></section></div>"#,
    );
    html
}

/// The page that is shown when the manager fails.
pub open spec fn error_page_html(message: Seq<char>) -> Seq<char> {
    page_html("NTZ Manager Error"@, error_body_html(message))
}

/// The page that is shown when the manager fails.
pub fn render_error_page(message: &str) -> (html: String)
    ensures
        html@ == error_page_html(message@),
{
    let body = render_error_body(message);
    render_page("NTZ Manager Error", body.as_str())
}

/// What is shown where signing in failed.
pub open spec fn login_error_html(message: Seq<char>) -> Seq<char> {
    r#"<div class="note error"><strong>Sign-in failed.</strong><div>"#@
        + escaped(message)
        + "</div></div>"@
}

/// What is shown where signing in failed.
pub fn render_login_error(message: &str) -> (html: String)
    ensures
        html@ == login_error_html(message@),
{
    let mut html = String::from_str(
        r#"<div class="note error"><strong>Sign-in failed.</strong><div>"#,
    );
    html.append(escape_html(message).as_str());
    html.append("</div></div>");
    html
}

/// What is shown where signing in failed, or nothing.
pub open spec fn login_note_html(error: Option<Seq<char>>) -> Seq<char> {
    match error {
        Some(message) => login_error_html(message),
        None => Seq::empty(),
    }
}

/// What is shown where signing in failed, or nothing.
fn render_login_note(error: Option<&str>) -> (html: String)
    ensures
        html@ == login_note_html(option_view(error)),
{
    match error {
        Some(message) => render_login_error(message),
        None => String::new(),
    }
}

/// The body of the page for signing in.
pub open spec fn login_body_html(error: Option<Seq<char>>) -> Seq<char> {
    r#"<div class="page"><section class="login-layout"><div><span class="eyebrow">NTZ control plane</span><div class="brand"><h1>Manage enrollment, health, and tunnel policy from one cleaner dashboard.</h1></div><p class="lead">Create bootstrap tokens, watch agent heartbeats, and keep server or client assignments organized without digging through raw tables.</p><div class="card"><span class="eyebrow">What this portal does</span><ol class="steps"><li><strong>Create a server token</strong> and enroll your Linux VPN node.</li><li><strong>Create client tokens</strong> for Windows or Linux devices you want to manage.</li><li><strong>Review heartbeats</strong>, public endpoints, and assignments in one place.</li></ol></div></div><form class="card strong" method="post" action="/login"><span class="eyebrow">Administrator sign-in</span><h2>Open NTZ Manager</h2><p class="muted">Use the credentials configured when you started the manager service.</p>"#@
        + login_note_html(error)
        + input_field_html("Username"@, "username"@, "text"@, ""@, "Administrator account name."@)
        + input_field_html(
              "Password"@,
              "password"@,
              "password"@,
              ""@,
              "Password for the manager portal."@,
          )
        + r#"<button class="btn" type="submit">Open dashboard</button></form></section></div>"#@
}

/// The body of the page for signing in.
pub fn render_login_body(error: Option<&str>) -> (html: String)
    ensures
        html@ == login_body_html(option_view(error)),
{
    let mut html = String::from_str(
        r#"<div class="page"><section class="login-layout"><div><span class="eyebrow">NTZ control plane</span><div class="brand"><h1>Manage enrollment, health, and tunnel policy from one cleaner dashboard.</h1></div><p class="lead">Create bootstrap tokens, watch agent heartbeats, and keep server or client assignments organized without digging through raw tables.</p><div class="card"><span class="eyebrow">What this portal does</span><ol class="steps"><li><strong>Create a server token</strong> and enroll your Linux VPN node.</li><li><strong>Create client tokens</strong> for Windows or Linux devices you want to manage.</li><li><strong>Review heartbeats</strong>, public endpoints, and assignments in one place.</li></ol></div></div><form class="card strong" method="post" action="/login"><span class="eyebrow">Administrator sign-in</span><h2>Open NTZ Manager</h2><p class="muted">Use the credentials configured when you started the manager service.</p>"#,
    );
    html.append(render_login_note(error).as_str());
    html.append(
        render_input_field(
            "Username",
            "username",
            "text",
            "",
            "Administrator account name.",
        ).as_str(),
    );
    html.append(
        render_input_field(
            "Password",
            "password",
            "password",
            "",
            "Password for the manager portal.",
        ).as_str(),
    );
    html.append(
        r#"<button class="btn" type="submit">Open dashboard</button></form></section></div>"#,
    );
    html
}

/// The page for signing in.
pub open spec fn login_html(error: Option<Seq<char>>) -> Seq<char> {
    page_html("NTZ Manager Login"@, login_body_html(error))
}

/// The page for signing in.
pub fn render_login(error: Option<&str>) -> (html: String)
    ensures
        html@ == login_html(option_view(error)),
{
    let body = render_login_body(error);
    render_page("NTZ Manager Login", body.as_str())
}

/// Whether a piece of HTML stands somewhere in another.
#[verifier::opaque]
pub open spec fn shows(page: Seq<char>, piece: Seq<char>) -> bool {
    exists|i: int|
        0 <= i && i + piece.len() <= page.len() && #[trigger] page.subrange(i, i + piece.len())
            == piece
}

/// Whatever one of two pieces shows, they show together.
pub proof fn lemma_shows()
    ensures
        forall|a: Seq<char>, b: Seq<char>, piece: Seq<char>|
            shows(a, piece) || b == piece || shows(b, piece) ==> #[trigger] shows(a + b, piece),
        forall|piece: Seq<char>| #[trigger] shows(piece, piece),
{
    reveal(shows);
    assert forall|a: Seq<char>, b: Seq<char>, piece: Seq<char>|
        shows(a, piece) || b == piece || shows(b, piece) implies #[trigger] shows(a + b, piece) by {
        if shows(a, piece) {
            let i = choose|i: int|
                0 <= i && i + piece.len() <= a.len() && #[trigger] a.subrange(i, i + piece.len())
                    == piece;
            assert((a + b).subrange(i, i + piece.len()) =~= piece);
        } else if b == piece {
            let i = a.len() as int;
            assert((a + b).subrange(i, i + piece.len()) =~= piece);
        } else {
            let i = choose|i: int|
                0 <= i && i + piece.len() <= b.len() && #[trigger] b.subrange(i, i + piece.len())
                    == piece;
            let j = i + a.len();
            assert((a + b).subrange(j, j + piece.len()) =~= piece);
        }
    }
    assert forall|piece: Seq<char>| #[trigger] shows(piece, piece) by {
        let i = 0int;
        assert(piece.subrange(i, i + piece.len()) =~= piece);
    }
}

/// What the five characters of markup are written as; every other character stands for itself, and
/// a text is written character by character.
pub proof fn law_escaped_characters(s: Seq<char>, c: char)
    ensures
        escaped(Seq::empty()).len() == 0,
        escaped(s.push(c)) == escaped(s) + (if c == '&' {
            "&amp;"@
        } else if c == '<' {
            "&lt;"@
        } else if c == '>' {
            "&gt;"@
        } else if c == '"' {
            "&quot;"@
        } else if c == '\'' {
            "&#39;"@
        } else {
            seq![c]
        }),
{
    assert(s.push(c).drop_last() =~= s);
}

/// A page shows its body as it is, and its title escaped.
pub proof fn law_pages_show_their_body(title: Seq<char>, body: Seq<char>)
    ensures
        shows(page_html(title, body), body),
        shows(page_html(title, body), escaped(title)),
        shows(page_html(title, body), MANAGER_STYLE@),
        shows(page_html(title, body), MANAGER_SCRIPT@),
{
    lemma_shows();
}

/// Fields of forms show what they are given, escaped; a switch shows whether it is on.
pub proof fn law_fields_show_their_values(
    label: Seq<char>,
    name: Seq<char>,
    kind: Seq<char>,
    value: Seq<char>,
    help: Seq<char>,
)
    ensures
        input_field_html(label, name, kind, value, help) == r#"<label class="field"><span>"#@
            + escaped(label) + r#"</span><input type=""#@ + escaped(kind) + r#"" name=""#@
            + escaped(name) + r#"" value=""#@ + escaped(value) + r#""/><small>"#@ + escaped(help)
            + "</small></label>"@,
        textarea_field_html(label, name, value, help) == r#"<label class="field"><span>"#@
            + escaped(label) + r#"</span><textarea name=""#@ + escaped(name) + r#"">"#@ + escaped(
            value,
        ) + "</textarea><small>"@ + escaped(help) + "</small></label>"@,
        select_field_html(label, name, value, help) == r#"<label class="field"><span>"#@ + escaped(
            label,
        ) + r#"</span><select name=""#@ + escaped(name) + r#"">"#@ + value + "</select><small>"@
            + escaped(help) + "</small></label>"@,
        checked_attribute(true) == "checked"@,
        checked_attribute(false) == ""@,
        shows(toggle_field_html(label, name, true, help), "checked"@),
        shows(toggle_field_html(label, name, true, help), escaped(name)),
        shows(toggle_field_html(label, name, false, help), escaped(name)),
        shows(badge_html(label, name), escaped(label)),
        shows(meta_card_html(label, value), escaped(label)),
        shows(meta_card_html(label, value), value),
        shows(code_html(value), escaped(value)),
{
    lemma_shows();
}

/// A failure is shown with its message, escaped; a refused sign-in with the reason.
pub proof fn law_errors_are_shown(message: Seq<char>)
    ensures
        shows(error_page_html(message), escaped(message)),
        shows(login_html(Some(message)), escaped(message)),
{
    lemma_shows();
}

/// A blank text is shown as the fallback, any other without the white space around it.
pub proof fn law_shown_texts(value: Seq<char>, fallback: Seq<char>)
    ensures
        trim_spec(value).len() == 0 ==> text_or(value, fallback) == fallback,
        trim_spec(value).len() > 0 ==> text_or(value, fallback) == trim_spec(value),
{
}

} // verus!
