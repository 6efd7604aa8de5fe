//! What the HTTP side serves: which static resource a path names, and the
//! configuration document that the browser client loads.
use vstd::prelude::*;
use vstd::string::*;
use crate::config::{command_list, Config};
use crate::text::{same_text, strip_slashes, trim_leading_slashes};

verus! {

/// The characters of each string in `v`.
pub open spec fn texts(v: Seq<String>) -> Seq<Seq<char>> {
    v.map_values(|s: String| s@)
}

/// The characters of each pair of strings in `v`.
pub open spec fn text_pairs(v: Seq<(String, String)>) -> Seq<(Seq<char>, Seq<char>)> {
    v.map_values(|p: (String, String)| (p.0@, p.1@))
}

/// The embedded asset that a request path names: leading slashes dropped,
/// and the root mapped to the index page.
pub open spec fn asset_path_of(request: Seq<char>) -> Seq<char> {
    if strip_slashes(request).len() == 0 {
        "index.html"@
    } else {
        strip_slashes(request)
    }
}

/// The name of the game package, which is served from disk, not embedded.
pub open spec fn package_name() -> Seq<char> {
    "valve.zip"@
}

/// Where a static request is answered from.
pub enum StaticTarget {
    /// The game package file configured at start.
    PackageZip,
    /// The embedded asset at this path.
    Asset(String),
}

/// The embedded asset path for a request path.
pub fn asset_path(request: &str) -> (r: String)
    ensures
        r@ == asset_path_of(request@),
{
    let p = trim_leading_slashes(request);
    if p.unicode_len() == 0 {
        String::from_str("index.html")
    } else {
        String::from_str(p)
    }
}

/// Routes a static request: the package by its name, anything else to the
/// embedded assets.
pub fn static_target(request: &str) -> (r: StaticTarget)
    ensures
        strip_slashes(request@) == package_name() ==> r is PackageZip,
        strip_slashes(request@) != package_name() ==> (r matches StaticTarget::Asset(p) && p@
            == asset_path_of(request@)),
{
    let p = trim_leading_slashes(request);
    if same_text(p, "valve.zip") {
        StaticTarget::PackageZip
    } else {
        StaticTarget::Asset(asset_path(request))
    }
}

/// The MIME type guessed from a path's extension, `application/octet-stream`
/// where none is known.
pub uninterp spec fn mime_type_of(path: Seq<char>) -> Seq<char>;

/// Relies on `mime_guess::from_path(..).first_or_octet_stream()`: the first
/// MIME type registered for the path's extension, or the octet-stream type.
#[verifier::external_body]
fn guess_mime(path: &str) -> (r: String)
    ensures
        r@ == mime_type_of(path@),
{
    mime_guess::from_path(path).first_or_octet_stream().as_ref().to_string()
}

/// An embedded asset to look up, with the content type to serve it with.
pub struct AssetRequest {
    pub path: String,
    pub content_type: String,
}

/// The asset path and content type for a request path.
pub fn asset_request(request: &str) -> (r: AssetRequest)
    ensures
        r.path@ == asset_path_of(request@),
        r.content_type@ == mime_type_of(asset_path_of(request@)),
{
    let path = asset_path(request);
    let content_type = guess_mime(path.as_str());
    AssetRequest { path, content_type }
}

/// The engine libraries that the client loads.
pub struct ClientLibraries {
    pub client: String,
    pub server: String,
    pub extras: String,
    pub menu: String,
    pub filesystem: String,
}

/// The configuration document of the browser client.
pub struct ClientConfig {
    pub arguments: Vec<String>,
    pub console: Vec<String>,
    pub game_dir: String,
    pub libraries: ClientLibraries,
    pub dynamic_libraries: Vec<String>,
    /// Requested path and the path served in its place; the keys are distinct.
    pub files_map: Vec<(String, String)>,
    pub proxy_host: String,
    pub proxy_port: u16,
}

/// `/<game_dir><suffix>`.
pub open spec fn game_path(game_dir: Seq<char>, suffix: Seq<char>) -> Seq<char> {
    seq!['/'] + game_dir + suffix
}

fn game_file(game_dir: &str, suffix: &str) -> (r: String)
    ensures
        r@ == game_path(game_dir@, suffix@),
{
    proof {
        reveal_strlit("/");
    }
    let mut r = String::from_str("/");
    r.append(game_dir);
    r.append(suffix);
    assert("/"@ =~= seq!['/']);
    r
}

/// The client configuration for the proxy's settings.
pub fn client_config(config: &Config) -> (r: ClientConfig)
    ensures
        texts(r.arguments@) == seq!["-windowed"@, "-game"@, config.game_dir@],
        config.console_commands is None ==> r.console@.len() == 0,
        config.console_commands matches Some(t) ==> texts(r.console@) == command_list(t@),
        r.game_dir@ == config.game_dir@,
        r.libraries.client@ == game_path(config.game_dir@, "/cl_dlls/client_emscripten_wasm32.wasm"@),
        r.libraries.server@ == game_path(config.game_dir@, "/dlls/cs_emscripten_wasm32.wasm"@),
        r.libraries.extras@ == game_path(config.game_dir@, "/extras.pk3"@),
        r.libraries.menu@ == game_path(config.game_dir@, "/cl_dlls/menu_emscripten_wasm32.wasm"@),
        r.libraries.filesystem@ == "/filesystem_stdio.wasm"@,
        texts(r.dynamic_libraries@) == seq![
            "dlls/cs_emscripten_wasm32.so"@,
            "/rwdir/filesystem_stdio.wasm"@,
        ],
        text_pairs(r.files_map@) == seq![
            (
                "dlls/cs_emscripten_wasm32.so"@,
                game_path(config.game_dir@, "/dlls/cs_emscripten_wasm32.wasm"@),
            ),
            (
                "dlls/hl_emscripten_wasm32.so"@,
                game_path(config.game_dir@, "/dlls/cs_emscripten_wasm32.wasm"@),
            ),
            ("/rwdir/filesystem_stdio.wasm"@, "/filesystem_stdio.wasm"@),
        ],
        r.proxy_host@ == match config.public_ip {
            Some(ip) => ip@,
            None => config.host@,
        },
        r.proxy_port == config.port,
{
    let g = config.game_dir.as_str();
    let mut arguments: Vec<String> = Vec::new();
    arguments.push(String::from_str("-windowed"));
    arguments.push(String::from_str("-game"));
    arguments.push(config.game_dir.clone());
    assert(texts(arguments@) =~= seq!["-windowed"@, "-game"@, config.game_dir@]);

    let console = config.get_console_commands();
    proof {
        if config.console_commands is Some {
            let t = config.console_commands->0;
            assert(texts(console@) =~= command_list(t@));
        }
    }

    let libraries = ClientLibraries {
        client: game_file(g, "/cl_dlls/client_emscripten_wasm32.wasm"),
        server: game_file(g, "/dlls/cs_emscripten_wasm32.wasm"),
        extras: game_file(g, "/extras.pk3"),
        menu: game_file(g, "/cl_dlls/menu_emscripten_wasm32.wasm"),
        filesystem: String::from_str("/filesystem_stdio.wasm"),
    };

    let mut dynamic_libraries: Vec<String> = Vec::new();
    dynamic_libraries.push(String::from_str("dlls/cs_emscripten_wasm32.so"));
    dynamic_libraries.push(String::from_str("/rwdir/filesystem_stdio.wasm"));
    assert(texts(dynamic_libraries@) =~= seq![
        "dlls/cs_emscripten_wasm32.so"@,
        "/rwdir/filesystem_stdio.wasm"@,
    ]);

    let mut files_map: Vec<(String, String)> = Vec::new();
    files_map.push(
        (
            String::from_str("dlls/cs_emscripten_wasm32.so"),
            game_file(g, "/dlls/cs_emscripten_wasm32.wasm"),
        ),
    );
    files_map.push(
        (
            String::from_str("dlls/hl_emscripten_wasm32.so"),
            game_file(g, "/dlls/cs_emscripten_wasm32.wasm"),
        ),
    );
    files_map.push(
        (String::from_str("/rwdir/filesystem_stdio.wasm"), String::from_str("/filesystem_stdio.wasm")),
    );
    assert(text_pairs(files_map@) =~= seq![
        (
            "dlls/cs_emscripten_wasm32.so"@,
            game_path(config.game_dir@, "/dlls/cs_emscripten_wasm32.wasm"@),
        ),
        (
            "dlls/hl_emscripten_wasm32.so"@,
            game_path(config.game_dir@, "/dlls/cs_emscripten_wasm32.wasm"@),
        ),
        ("/rwdir/filesystem_stdio.wasm"@, "/filesystem_stdio.wasm"@),
    ]);

    let proxy_host = match &config.public_ip {
        Some(ip) => ip.clone(),
        None => config.host.clone(),
    };

    ClientConfig {
        arguments,
        console,
        game_dir: config.game_dir.clone(),
        libraries,
        dynamic_libraries,
        files_map,
        proxy_host,
        proxy_port: config.port,
    }
}

} // verus!
