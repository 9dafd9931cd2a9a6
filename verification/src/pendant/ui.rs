//! The page of the web pendant.

use vstd::prelude::*;
use crate::text::{chars_of, string_of, extend_str};

verus! {

/// Style sheet of the page.
pub const PENDANT_UI_CSS: &'static str = "";

/// Client script of the page.
pub const PENDANT_UI_JS: &'static str = "";

/// Version shown on the page.
pub const PENDANT_UI_VERSION: &'static str = "0.2.0";

/// Opening of the page, up to the title.
pub open spec fn page_head() -> Seq<char> {
    "<!DOCTYPE html>\n<html lang=\"en\">\n<head>\n    <meta charset=\"UTF-8\">\n    <meta name=\"viewport\" content=\"width=device-width, initial-scale=1.0\">\n    <title>"@
}

/// From the title to the style sheet.
pub open spec fn page_style() -> Seq<char> {
    "</title>\n    <style>"@
}

/// From the style sheet to the class of the body.
pub open spec fn page_body() -> Seq<char> {
    "</style>\n</head>\n<body class=\""@
}

/// From the class of the body to the heading.
pub open spec fn page_heading() -> Seq<char> {
    "\">\n    <div id=\"app\" class=\"app-container\">\n        <header class=\"header\">\n            <h1>"@
}

/// From the heading to the version.
pub open spec fn page_version() -> Seq<char> {
    "</h1>\n            <span class=\"version\">v"@
}

/// From the version to the API address in the script.
pub open spec fn page_main() -> Seq<char> {
    "</span>\n        </header>\n        <div class=\"content\">\n            <section class=\"status-panel\">\n                <h2>Machine Status</h2>\n                <div class=\"status-grid\">\n                    <div class=\"status-item\">\n                        <label>State</label>\n                        <span id=\"state\" class=\"state idle\">Disconnected</span>\n                    </div>\n                    <div class=\"status-item\">\n                        <label>Position X</label>\n                        <span id=\"posX\">0.00</span> mm\n                    </div>\n                    <div class=\"status-item\">\n                        <label>Position Y</label>\n                        <span id=\"posY\">0.00</span> mm\n                    </div>\n                    <div class=\"status-item\">\n                        <label>Position Z</label>\n                        <span id=\"posZ\">0.00</span> mm\n                    </div>\n                </div>\n            </section>\n            <section class=\"control-panel\">\n                <h2>Controls</h2>\n                <div class=\"jog-panel\">\n                    <h3>Jog</h3>\n                    <div class=\"axis-controls\">\n                        <button class=\"jog-btn\" data-axis=\"X\" data-distance=\"-1\">X-</button>\n                        <button class=\"jog-btn\" data-axis=\"X\" data-distance=\"1\">X+</button>\n                        <button class=\"jog-btn\" data-axis=\"Y\" data-distance=\"-1\">Y-</button>\n                        <button class=\"jog-btn\" data-axis=\"Y\" data-distance=\"1\">Y+</button>\n                        <button class=\"jog-btn\" data-axis=\"Z\" data-distance=\"-1\">Z-</button>\n                        <button class=\"jog-btn\" data-axis=\"Z\" data-distance=\"1\">Z+</button>\n                    </div>\n                </div>\n                <div class=\"emergency-panel\">\n                    <button id=\"emergencyStop\" class=\"emergency-btn\">Emergency Stop</button>\n                </div>\n            </section>\n        </div>\n        <footer class=\"footer\">\n            <span id=\"connection-status\" class=\"connection disconnected\">Disconnected</span>\n            <span id=\"message-count\" class=\"message-count\">0 messages</span>\n        </footer>\n    </div>\n    <script>\n    const config = {\n        apiUrl: \""@
}

/// From the API address to the WebSocket address.
pub open spec fn page_ws_url() -> Seq<char> {
    "\",\n        wsUrl: \""@
}

/// From the WebSocket address to the dark mode flag.
pub open spec fn page_dark_mode() -> Seq<char> {
    "\",\n        darkMode: "@
}

/// From the dark mode flag to the client script.
pub open spec fn page_script() -> Seq<char> {
    "\n    };\n    "@
}

/// Closing of the page.
pub open spec fn page_end() -> Seq<char> {
    "\n    </script>\n</body>\n</html>"@
}

/// What the page is rendered from.
#[derive(Debug)]
pub struct UiContext {
    /// Title of the application.
    pub title: String,
    /// Version of the application.
    pub version: String,
    /// Base address of the API.
    pub api_url: String,
    /// Address of the WebSocket.
    pub ws_url: String,
    /// Whether the page is shown dark.
    pub dark_mode: bool,
}

impl Default for UiContext {
    fn default() -> (r: UiContext)
        ensures
            r.title@ == "GCodeKit2 Web Pendant"@,
            r.version@ == "0.2.0-alpha"@,
            r.api_url@ == "/api"@,
            r.ws_url@ == "ws://localhost:8080/ws"@,
            !r.dark_mode,
    {
        UiContext {
            title: "GCodeKit2 Web Pendant".to_owned(),
            version: "0.2.0-alpha".to_owned(),
            api_url: "/api".to_owned(),
            ws_url: "ws://localhost:8080/ws".to_owned(),
            dark_mode: false,
        }
    }
}

/// The page of a context: the fixed text with the title, the style sheet,
/// the class of the body, the title again, the version, the two addresses,
/// the dark mode flag and the client script in their places.
pub open spec fn page(c: UiContext) -> Seq<char> {
    page_head() + c.title@ + page_style() + PENDANT_UI_CSS@ + page_body() + (if c.dark_mode {
        "dark-mode"@
    } else {
        ""@
    }) + page_heading() + c.title@ + page_version() + c.version@ + page_main() + c.api_url@
        + page_ws_url() + c.ws_url@ + page_dark_mode() + (if c.dark_mode {
        "true"@
    } else {
        "false"@
    }) + page_script() + PENDANT_UI_JS@ + page_end()
}

impl UiContext {
    /// A context with the version of this library.
    pub fn new(title: String, api_url: String, ws_url: String, dark_mode: bool) -> (r: UiContext)
        ensures
            r.title == title,
            r.version@ == PENDANT_UI_VERSION@,
            r.api_url == api_url,
            r.ws_url == ws_url,
            r.dark_mode == dark_mode,
    {
        UiContext { title, version: PENDANT_UI_VERSION.to_owned(), api_url, ws_url, dark_mode }
    }

    /// Renders the page.
    pub fn render_html(&self) -> (r: String)
        ensures
            r@ == page(*self),
    {
        let mut v = chars_of("<!DOCTYPE html>\n<html lang=\"en\">\n<head>\n    <meta charset=\"UTF-8\">\n    <meta name=\"viewport\" content=\"width=device-width, initial-scale=1.0\">\n    <title>");
        extend_str(&mut v, self.title.as_str());
        extend_str(&mut v, "</title>\n    <style>");
        extend_str(&mut v, PENDANT_UI_CSS);
        extend_str(&mut v, "</style>\n</head>\n<body class=\"");
        if self.dark_mode {
            extend_str(&mut v, "dark-mode");
        } else {
            extend_str(&mut v, "");
        }
        extend_str(&mut v, "\">\n    <div id=\"app\" class=\"app-container\">\n        <header class=\"header\">\n            <h1>");
        extend_str(&mut v, self.title.as_str());
        extend_str(&mut v, "</h1>\n            <span class=\"version\">v");
        extend_str(&mut v, self.version.as_str());
        extend_str(&mut v, "</span>\n        </header>\n        <div class=\"content\">\n            <section class=\"status-panel\">\n                <h2>Machine Status</h2>\n                <div class=\"status-grid\">\n                    <div class=\"status-item\">\n                        <label>State</label>\n                        <span id=\"state\" class=\"state idle\">Disconnected</span>\n                    </div>\n                    <div class=\"status-item\">\n                        <label>Position X</label>\n                        <span id=\"posX\">0.00</span> mm\n                    </div>\n                    <div class=\"status-item\">\n                        <label>Position Y</label>\n                        <span id=\"posY\">0.00</span> mm\n                    </div>\n                    <div class=\"status-item\">\n                        <label>Position Z</label>\n                        <span id=\"posZ\">0.00</span> mm\n                    </div>\n                </div>\n            </section>\n            <section class=\"control-panel\">\n                <h2>Controls</h2>\n                <div class=\"jog-panel\">\n                    <h3>Jog</h3>\n                    <div class=\"axis-controls\">\n                        <button class=\"jog-btn\" data-axis=\"X\" data-distance=\"-1\">X-</button>\n                        <button class=\"jog-btn\" data-axis=\"X\" data-distance=\"1\">X+</button>\n                        <button class=\"jog-btn\" data-axis=\"Y\" data-distance=\"-1\">Y-</button>\n                        <button class=\"jog-btn\" data-axis=\"Y\" data-distance=\"1\">Y+</button>\n                        <button class=\"jog-btn\" data-axis=\"Z\" data-distance=\"-1\">Z-</button>\n                        <button class=\"jog-btn\" data-axis=\"Z\" data-distance=\"1\">Z+</button>\n                    </div>\n                </div>\n                <div class=\"emergency-panel\">\n                    <button id=\"emergencyStop\" class=\"emergency-btn\">Emergency Stop</button>\n                </div>\n            </section>\n        </div>\n        <footer class=\"footer\">\n            <span id=\"connection-status\" class=\"connection disconnected\">Disconnected</span>\n            <span id=\"message-count\" class=\"message-count\">0 messages</span>\n        </footer>\n    </div>\n    <script>\n    const config = {\n        apiUrl: \"");
        extend_str(&mut v, self.api_url.as_str());
        extend_str(&mut v, "\",\n        wsUrl: \"");
        extend_str(&mut v, self.ws_url.as_str());
        extend_str(&mut v, "\",\n        darkMode: ");
        if self.dark_mode {
            extend_str(&mut v, "true");
        } else {
            extend_str(&mut v, "false");
        }
        extend_str(&mut v, "\n    };\n    ");
        extend_str(&mut v, PENDANT_UI_JS);
        extend_str(&mut v, "\n    </script>\n</body>\n</html>");
        string_of(&v)
    }
}

} // verus!
