//! The component renderer: a component is a typed view-model that renders
//! itself into a body fragment, and the renderer wraps that fragment in the
//! fixed page shell (doctype, head with metadata and asset references, body
//! with heading and container). Text placed into markup is HTML-escaped.
//! The renderer itself never fails.
use vstd::prelude::*;
use vstd::string::StrSliceExecFns;
use vstd::string::StringExecFns;

use crate::store::Link;
use crate::text::push_char;

verus! {

/// The entity replacement the renderer applies to one character.
pub open spec fn escape_char(c: char) -> Seq<char> {
    if c == '&' {
        "&amp;"@
    } else if c == '<' {
        "&lt;"@
    } else if c == '>' {
        "&gt;"@
    } else if c == '"' {
        "&quot;"@
    } else {
        seq![c]
    }
}

/// The HTML escaping of a text: every character replaced by its entity.
pub open spec fn escaped(s: Seq<char>) -> Seq<char>
    decreases s.len(),
{
    if s.len() == 0 {
        Seq::<char>::empty()
    } else {
        escape_char(s[0]) + escaped(s.drop_first())
    }
}

proof fn lemma_escaped_snoc(s: Seq<char>, c: char)
    ensures
        escaped(s.push(c)) == escaped(s) + escape_char(c),
    decreases s.len(),
{
    if s.len() == 0 {
        let t = s.push(c);
        assert(t[0] == c);
        assert(t.drop_first() =~= Seq::<char>::empty());
        assert(escaped(t.drop_first()) == Seq::<char>::empty());
        assert(escaped(t) == escape_char(c) + Seq::<char>::empty());
        assert(escape_char(c) + Seq::<char>::empty() =~= escape_char(c));
        assert(escaped(s) == Seq::<char>::empty());
        assert(escaped(s) + escape_char(c) =~= escape_char(c));
    } else {
        assert(s.push(c).drop_first() =~= s.drop_first().push(c));
        lemma_escaped_snoc(s.drop_first(), c);
        assert(escape_char(s[0]) + (escaped(s.drop_first()) + escape_char(c)) =~= (escape_char(
            s[0],
        ) + escaped(s.drop_first())) + escape_char(c));
    }
}

/// Escapes a text for placement into markup: `&`, `<`, `>` and `"` become
/// entities, every other character stays.
pub fn escape_html(s: &str) -> (r: String)
    ensures
        r@ == escaped(s@),
{
    let n = s.unicode_len();
    let mut out = String::new();
    let mut i: usize = 0;
    while i < n
        invariant
            i <= n,
            n == s@.len(),
            out@ == escaped(s@.take(i as int)),
        decreases n - i,
    {
        let c = s.get_char(i);
        proof {
            assert(s@.take(i as int).push(c) =~= s@.take(i + 1 as int));
            lemma_escaped_snoc(s@.take(i as int), c);
        }
        if c == '&' {
            out.append("&amp;");
        } else if c == '<' {
            out.append("&lt;");
        } else if c == '>' {
            out.append("&gt;");
        } else if c == '"' {
            out.append("&quot;");
        } else {
            let ghost prev = out@;
            push_char(&mut out, c);
            proof {
                assert(prev.push(c) =~= prev + seq![c]);
            }
        }
        i = i + 1;
    }
    proof {
        assert(s@.take(n as int) =~= s@);
    }
    out
}

/// The markup of the submission form's text input.
pub open spec fn text_input_html(name: Seq<char>) -> Seq<char> {
    "<input autofocus type=\"text\" class=\"p-2 py-3 text-xl bg-gray-100 dark:bg-gray-600 rounded-md outline-none\" name=\""@
        + escaped(name) + "\" tabindex=\"0\">"@
}

/// The markup of a submit button.
pub open spec fn button_html(label: Seq<char>) -> Seq<char> {
    "<button type=\"submit\" class=\"px-2 py-4 bg-orange-500 rounded-md hover:bg-orange-400\">"@
        + escaped(label) + "</button>"@
}

/// The markup of one stored link: a clickable entry naming its URL.
pub open spec fn link_item_html(l: Link) -> Seq<char> {
    "<a class=\"text-2xl text-sky-500 underline hover:text-sky-300\" href=\""@ + escaped(l.url@)
        + "\">"@ + escaped(l.url@) + "</a>"@
}

/// The markup of a list of links, in the order given.
pub open spec fn links_html(ls: Seq<Link>) -> Seq<char>
    decreases ls.len(),
{
    if ls.len() == 0 {
        Seq::<char>::empty()
    } else {
        link_item_html(ls[0]) + links_html(ls.drop_first())
    }
}

proof fn lemma_links_html_snoc(ls: Seq<Link>, l: Link)
    ensures
        links_html(ls.push(l)) == links_html(ls) + link_item_html(l),
    decreases ls.len(),
{
    if ls.len() == 0 {
        let t = ls.push(l);
        assert(t[0] == l);
        assert(t.drop_first() =~= Seq::<Link>::empty());
        assert(links_html(t.drop_first()) == Seq::<char>::empty());
        assert(links_html(t) == link_item_html(l) + Seq::<char>::empty());
        assert(link_item_html(l) + Seq::<char>::empty() =~= link_item_html(l));
        assert(links_html(ls) == Seq::<char>::empty());
        assert(links_html(ls) + link_item_html(l) =~= link_item_html(l));
    } else {
        assert(ls.push(l).drop_first() =~= ls.drop_first().push(l));
        lemma_links_html_snoc(ls.drop_first(), l);
        assert(link_item_html(ls[0]) + (links_html(ls.drop_first()) + link_item_html(l)) =~= (
        link_item_html(ls[0]) + links_html(ls.drop_first())) + link_item_html(l));
    }
}

/// The body fragment of the home page: the submission form posting to the
/// home route, the optional validation message, and the list of links.
pub open spec fn home_body_html(error: Option<Seq<char>>, ls: Seq<Link>) -> Seq<char> {
    "<form class=\"flex flex-col w-full gap-3\" action=\"/\" method=\"post\">"@ + text_input_html(
        "url"@,
    ) + button_html("Add link"@) + "</form>"@ + (match error {
        Some(e) => escaped(e),
        None => Seq::<char>::empty(),
    })
        + "<div class=\"w-full flex flex-col gap-4 divide-y dark:divide-gray-700 divide-gray-200\">"@
        + links_html(ls) + "</div>"@
}

/// A renderable view-model, built by a handler and consumed once by the
/// renderer. The home page carries an optional validation message and the
/// links to list.
pub enum Component {
    HomePage { error: Option<String>, links: Vec<Link> },
}

impl Component {
    /// The body fragment this component renders to.
    pub open spec fn spec_html(self) -> Seq<char> {
        match self {
            Component::HomePage { error, links } => home_body_html(
                match error {
                    Some(e) => Some(e@),
                    None => None,
                },
                links@,
            ),
        }
    }

    /// Renders the component into its body fragment.
    pub fn html(&self) -> (r: String)
        ensures
            r@ == self.spec_html(),
    {
        match self {
            Component::HomePage { error, links } => {
                let mut out = String::from_str(
                    "<form class=\"flex flex-col w-full gap-3\" action=\"/\" method=\"post\">",
                );
                let input = text_input("url");
                out.append(input.as_str());
                let btn = button("Add link");
                out.append(btn.as_str());
                out.append("</form>");
                match error {
                    Some(e) => {
                        let esc = escape_html(e.as_str());
                        out.append(esc.as_str());
                    },
                    None => {},
                }
                out.append(
                    "<div class=\"w-full flex flex-col gap-4 divide-y dark:divide-gray-700 divide-gray-200\">",
                );
                let n = links.len();
                let mut i: usize = 0;
                let mut list = String::new();
                while i < n
                    invariant
                        i <= n,
                        n == links@.len(),
                        list@ == links_html(links@.take(i as int)),
                    decreases n - i,
                {
                    proof {
                        assert(links@.take(i as int).push(links@[i as int]) =~= links@.take(
                            i + 1 as int,
                        ));
                        lemma_links_html_snoc(links@.take(i as int), links@[i as int]);
                    }
                    let item = link_item(&links[i]);
                    list.append(item.as_str());
                    i = i + 1;
                }
                proof {
                    assert(links@.take(n as int) =~= links@);
                }
                out.append(list.as_str());
                out.append("</div>");
                out
            },
        }
    }
}

/// The markup of the form's text input, as [`text_input_html`] states.
pub fn text_input(name: &str) -> (r: String)
    ensures
        r@ == text_input_html(name@),
{
    let mut out = String::from_str(
        "<input autofocus type=\"text\" class=\"p-2 py-3 text-xl bg-gray-100 dark:bg-gray-600 rounded-md outline-none\" name=\"",
    );
    let esc = escape_html(name);
    out.append(esc.as_str());
    out.append("\" tabindex=\"0\">");
    out
}

/// The markup of a submit button, as [`button_html`] states.
pub fn button(label: &str) -> (r: String)
    ensures
        r@ == button_html(label@),
{
    let mut out = String::from_str(
        "<button type=\"submit\" class=\"px-2 py-4 bg-orange-500 rounded-md hover:bg-orange-400\">",
    );
    let esc = escape_html(label);
    out.append(esc.as_str());
    out.append("</button>");
    out
}

/// The markup of one stored link, as [`link_item_html`] states.
pub fn link_item(l: &Link) -> (r: String)
    ensures
        r@ == link_item_html(*l),
{
    let mut out = String::from_str(
        "<a class=\"text-2xl text-sky-500 underline hover:text-sky-300\" href=\"",
    );
    let esc = escape_html(l.url.as_str());
    out.append(esc.as_str());
    out.append("\">");
    out.append(esc.as_str());
    out.append("</a>");
    out
}

/// The fixed page shell around a body fragment: doctype, head with title,
/// viewport and charset metadata and the stylesheet and script assets, and a
/// body with the fixed heading and container.
pub open spec fn page_html(body: Seq<char>) -> Seq<char> {
    "<!DOCTYPE html><html lang=\"en\"><head><title>links</title><meta name=\"viewport\" content=\"width=device-width, initial-scale=1\"><meta charset=\"UTF-8\"><link rel=\"stylesheet\" href=\"./pub/tailwind.css\"><script src=\"./pub/htmx.org@1.9.5.js\"></script><script src=\"./pub/json-enc.js\"></script></head><body class=\"bg-white dark:bg-gray-950 dark:text-white\" hx-boost=\"true\" hx-ext=\"json-enc\"><div class=\"max-w-lg mx-auto w-full lg:px-0 px-3 h-screen flex flex-col gap-3\"><h1 class=\"text-2xl lg:text-4xl text-center\">links</h1>"@
        + body + "</div></body></html>"@
}

/// Renders a component into the full HTML document: the fixed page shell
/// around the component's body fragment. The renderer never fails; failure
/// can only originate upstream.
pub fn render(component: &Component) -> (r: String)
    ensures
        r@ == page_html(component.spec_html()),
{
    let mut out = String::from_str(
        "<!DOCTYPE html><html lang=\"en\"><head><title>links</title><meta name=\"viewport\" content=\"width=device-width, initial-scale=1\"><meta charset=\"UTF-8\"><link rel=\"stylesheet\" href=\"./pub/tailwind.css\"><script src=\"./pub/htmx.org@1.9.5.js\"></script><script src=\"./pub/json-enc.js\"></script></head><body class=\"bg-white dark:bg-gray-950 dark:text-white\" hx-boost=\"true\" hx-ext=\"json-enc\"><div class=\"max-w-lg mx-auto w-full lg:px-0 px-3 h-screen flex flex-col gap-3\"><h1 class=\"text-2xl lg:text-4xl text-center\">links</h1>",
    );
    let body = component.html();
    out.append(body.as_str());
    out.append("</div></body></html>");
    out
}

} // verus!
