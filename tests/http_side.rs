use webxash3d_proxy::config::Config;
use webxash3d_proxy::web::{asset_path, asset_request, client_config, static_target, StaticTarget};

fn config() -> Config {
    Config {
        server: "10.0.0.5:27015".to_string(),
        port: 27016,
        host: "0.0.0.0".to_string(),
        public_ip: None,
        verbose: false,
        package_zip: None,
        static_dir: None,
        game_dir: "valve".to_string(),
        console_commands: Some("fps_max 60, cl_lw 1".to_string()),
    }
}

#[test]
fn static_routes() {
    assert!(matches!(static_target("/valve.zip"), StaticTarget::PackageZip));
    assert!(matches!(static_target("valve.zip"), StaticTarget::PackageZip));
    match static_target("/") {
        StaticTarget::Asset(p) => assert_eq!(p, "index.html"),
        StaticTarget::PackageZip => panic!("root is not the package"),
    }
    match static_target("/js/main.js") {
        StaticTarget::Asset(p) => assert_eq!(p, "js/main.js"),
        StaticTarget::PackageZip => panic!("not the package"),
    }
    assert_eq!(asset_path(""), "index.html");
}

#[test]
fn asset_content_types() {
    let r = asset_request("/");
    assert_eq!(r.path, "index.html");
    assert_eq!(r.content_type, "text/html");
    let r = asset_request("/lib/engine.wasm");
    assert_eq!(r.path, "lib/engine.wasm");
    assert_eq!(r.content_type, "application/wasm");
    assert_eq!(asset_request("/data.unknownext").content_type, "application/octet-stream");
}

#[test]
fn client_config_document() {
    let c = client_config(&config());
    assert_eq!(c.arguments, vec!["-windowed", "-game", "valve"]);
    assert_eq!(c.console, vec!["fps_max 60", "cl_lw 1"]);
    assert_eq!(c.game_dir, "valve");
    assert_eq!(c.libraries.client, "/valve/cl_dlls/client_emscripten_wasm32.wasm");
    assert_eq!(c.libraries.server, "/valve/dlls/cs_emscripten_wasm32.wasm");
    assert_eq!(c.libraries.extras, "/valve/extras.pk3");
    assert_eq!(c.libraries.menu, "/valve/cl_dlls/menu_emscripten_wasm32.wasm");
    assert_eq!(c.libraries.filesystem, "/filesystem_stdio.wasm");
    assert_eq!(c.dynamic_libraries, vec!["dlls/cs_emscripten_wasm32.so", "/rwdir/filesystem_stdio.wasm"]);
    assert_eq!(
        c.files_map,
        vec![
            ("dlls/cs_emscripten_wasm32.so".to_string(), "/valve/dlls/cs_emscripten_wasm32.wasm".to_string()),
            ("dlls/hl_emscripten_wasm32.so".to_string(), "/valve/dlls/cs_emscripten_wasm32.wasm".to_string()),
            ("/rwdir/filesystem_stdio.wasm".to_string(), "/filesystem_stdio.wasm".to_string()),
        ]
    );
    assert_eq!(c.proxy_host, "0.0.0.0");
    assert_eq!(c.proxy_port, 27016);
}

#[test]
fn client_config_prefers_public_ip() {
    let mut cfg = config();
    cfg.public_ip = Some("203.0.113.7".to_string());
    cfg.console_commands = None;
    let c = client_config(&cfg);
    assert_eq!(c.proxy_host, "203.0.113.7");
    assert!(c.console.is_empty());
}
