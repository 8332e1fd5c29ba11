use links::render::Component;
use links::render::button;
use links::render::escape_html;
use links::render::link_item;
use links::render::render;
use links::render::text_input;
use links::store::Link;

#[test]
fn escaping_replaces_the_markup_characters() {
    assert_eq!(escape_html("a<b&c\"d>e"), "a&lt;b&amp;c&quot;d&gt;e");
    assert_eq!(escape_html(""), "");
    assert_eq!(escape_html("plain"), "plain");
}

#[test]
fn the_empty_home_page_is_the_exact_document() {
    let component = Component::HomePage { error: None, links: vec![] };
    let expected = "<!DOCTYPE html><html lang=\"en\"><head><title>links</title><meta name=\"viewport\" content=\"width=device-width, initial-scale=1\"><meta charset=\"UTF-8\"><link rel=\"stylesheet\" href=\"./pub/tailwind.css\"><script src=\"./pub/htmx.org@1.9.5.js\"></script><script src=\"./pub/json-enc.js\"></script></head><body class=\"bg-white dark:bg-gray-950 dark:text-white\" hx-boost=\"true\" hx-ext=\"json-enc\"><div class=\"max-w-lg mx-auto w-full lg:px-0 px-3 h-screen flex flex-col gap-3\"><h1 class=\"text-2xl lg:text-4xl text-center\">links</h1><form class=\"flex flex-col w-full gap-3\" action=\"/\" method=\"post\"><input autofocus type=\"text\" class=\"p-2 py-3 text-xl bg-gray-100 dark:bg-gray-600 rounded-md outline-none\" name=\"url\" tabindex=\"0\"><button type=\"submit\" class=\"px-2 py-4 bg-orange-500 rounded-md hover:bg-orange-400\">Add link</button></form><div class=\"w-full flex flex-col gap-4 divide-y dark:divide-gray-700 divide-gray-200\"></div></div></body></html>";
    assert_eq!(render(&component), expected);
}

#[test]
fn listed_urls_are_escaped_in_the_markup() {
    let link = Link {
        id: "a".to_string(),
        url: "https://x.example/?q=\"<svg>\"&r=1".to_string(),
        created_at: 1,
    };
    let item = link_item(&link);
    assert!(item.contains("https://x.example/?q=&quot;&lt;svg&gt;&quot;&amp;r=1"));
    assert!(!item.contains("<svg>"));
}

#[test]
fn the_error_message_appears_between_form_and_list() {
    let component = Component::HomePage {
        error: Some("Url needs to start with https://".to_string()),
        links: vec![Link { id: "a".to_string(), url: "https://a.example".to_string(), created_at: 1 }],
    };
    let page = render(&component);
    let form_end = page.find("</form>").unwrap();
    let message = page.find("Url needs to start with https://").unwrap();
    let list = page.find("https://a.example").unwrap();
    assert!(form_end < message);
    assert!(message < list);
}

#[test]
fn form_controls_render_their_markup() {
    assert_eq!(
        text_input("url"),
        "<input autofocus type=\"text\" class=\"p-2 py-3 text-xl bg-gray-100 dark:bg-gray-600 rounded-md outline-none\" name=\"url\" tabindex=\"0\">"
    );
    assert_eq!(
        button("Add link"),
        "<button type=\"submit\" class=\"px-2 py-4 bg-orange-500 rounded-md hover:bg-orange-400\">Add link</button>"
    );
}
