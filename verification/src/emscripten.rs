use std::collections::VecDeque;
use vstd::prelude::*;
use vstd::utf8::encode_utf8;
use crate::context::{Context, ContextView, summary_stages_of};
use crate::effect::{Next, Request, RequestView, texts_of};
use crate::io::script_of;
use crate::outputs::{output_dir, output_dir_of};
use crate::paths::{join, joined, quoted, quoted_path};
use crate::platform::Platform;
use crate::recipe::{
    Recipe, Stage, StageView, join3, joined3, recipe_start, run_script,
    run_script_in, run_stage, run_stage_in, running, stages_of, then, then_all, then_do,
};
use crate::script::{Environment, Script, ScriptView};

verus! {

/// The version of the Emscripten SDK that the build uses.
pub const EMSCRIPTEN_VERSION: &'static str = "2.0.32";

/// Where that version of the Emscripten SDK is published.
pub const EMSCRIPTEN_URL: &'static str =
    "https://github.com/emscripten-core/emsdk/archive/refs/tags/2.0.32.zip";

/// The Rust target of the build.
pub const WASM_TARGET: &'static str = "wasm32-unknown-emscripten";

/// The command that installs the Rust target.
pub const INSTALL_TARGET_COMMAND: &'static str = "rustup target add wasm32-unknown-emscripten";

/// The command that installs the web server that shows the product.
pub const INSTALL_SERVER_COMMAND: &'static str = "cargo install --version 1.12.0 https";

/// The command that serves the product.
pub const SERVE_COMMAND: &'static str = "http -p 8000";

/// The page that loads the application.
pub const INDEX_HTML_TEMPLATE: &'static str = r#"
<html>
    <head>
        <meta charset="utf-8">
        <meta http-equiv="Content-Type" content="text/html; charset=utf-8">
        <style>
            canvas.emscripten {
                display:block;
                border: 0px none;
                background-color: #333333;
            }

            textarea.emscripten {
                resize: none;
                width: 600px;
                height: 200px;
                display:block;
                border: 0px none;
                padding: 8px;
                background-color: #222222;
                color: #ffffff;
                margin: 0px;
            }

            .content {
                border: 1px solid #333333;
                display: inline-block;
            }
        </style>
    </head>

    <body>
        <div class="content">
            <canvas class="emscripten" id="canvas" width="600", height="360" oncontextmenu="event.preventDefault()" tabindex=-1></canvas>
            <textarea class="emscripten" id="output" rows="8"></textarea>
        </div>

        <script type='text/javascript'>
            var Module = {
                preRun: [],
                postRun: [],
                print: (function () {
                    var element = document.getElementById('output');
                    if (element) element.value = '';
                    return function (text) {
                        if (arguments.length > 1) {
                            text = Array.prototype.slice.call(arguments).join(' ');
                        }

                        console.log(text);

                        if (element) {
                            element.value += text + "\n";
                            element.scrollTop = element.scrollHeight;
                        }
                    };
                })(),
                printErr: function (text) {
                    if (arguments.length > 1) {
                        text = Array.prototype.slice.call(arguments).join(' ');
                    }

                    console.error(text);
                },
                canvas: (function () {
                    return document.getElementById('canvas');
                })()
            };
        </script>
        <script async type="text/javascript" src="crust.js"></script>
    </body>
</html>
"#;

/// The name under which the Emscripten SDK is kept in the working directory.
pub open spec fn sdk_dir_name_text() -> Seq<char> {
    "emscripten-sdk-"@ + EMSCRIPTEN_VERSION@
}

/// The directory of the Emscripten SDK.
pub open spec fn sdk_dir_of(context: ContextView) -> Seq<char> {
    joined(context.working_dir, sdk_dir_name_text())
}

/// The command that makes the tool of the SDK carry out `action` for the version of
/// the SDK.
pub open spec fn emsdk_command(context: ContextView, action: Seq<char>) -> Seq<char> {
    quoted_path(joined(sdk_dir_of(context), "emsdk"@)) + " "@ + action + " "@
        + EMSCRIPTEN_VERSION@
}

/// The stages that provide the Emscripten SDK: it is fetched, installed and
/// activated.
pub open spec fn sdk_stages(platform: Platform, context: ContextView) -> Seq<StageView> {
    seq![
        StageView::Do {
            request: RequestView::Fetch {
                platform,
                url: EMSCRIPTEN_URL@,
                name: sdk_dir_name_text(),
                parent_dir: context.working_dir,
            },
        },
        run_stage(platform, emsdk_command(context, "install"@)),
        run_stage(platform, emsdk_command(context, "activate"@)),
    ]
}

/// The flags for the Emscripten compiler: what to export, which libraries to use, and
/// the assets to pack.
pub open spec fn emscripten_flags(context: ContextView) -> Seq<char> {
    r#"-s EXPORTED_FUNCTIONS='["_main","_fileno"]' -O2 -s USE_SDL=2 -s USE_SDL_IMAGE=2 -s SDL2_IMAGE_FORMATS='["png"]' -s USE_WEBGL2=1 --preload-file "#@
        + quoted_path(context.assets_dir) + "@/assets"@
}

/// What a script begins with to get the environment of the SDK.
pub open spec fn script_prefix(platform: Platform) -> Seq<char> {
    match platform {
        Platform::Windows => "emsdk_env.bat &"@,
        Platform::Posix => ". ./emsdk_env.sh &&"@,
    }
}

/// The command that compiles the application in the environment of the SDK.
pub open spec fn compile_command(platform: Platform, context: ContextView) -> Seq<char> {
    script_prefix(platform) + " cargo rustc "@ + context.variant.flag_text()
        + " --manifest-path "@ + quoted_path(joined(context.source_dir, "Cargo.toml"@))
        + " --target wasm32-unknown-emscripten --bin crust --target-dir "@ + quoted_path(
        context.rust_build_dir,
    )
}

/// The script that compiles the application: it runs in the directory of the SDK and
/// hands the flags to the Emscripten compiler.
pub open spec fn compile_script(platform: Platform, context: ContextView) -> ScriptView {
    ScriptView {
        content: script_of(compile_command(platform, context)).content,
        working_dir: Some(sdk_dir_of(context)),
        environment: Map::empty().insert("EMCC_CFLAGS"@, emscripten_flags(context)),
    }
}

/// The products of the build.
pub open spec fn products(context: ContextView) -> Seq<Seq<char>> {
    let dir = joined3(context.rust_build_dir, WASM_TARGET@, context.variant.id_text(), "deps"@);
    seq![joined(dir, "crust.wasm"@), joined(dir, "crust.data"@), joined(dir, "crust.js"@)]
}

/// The stages that make the product: the output directory is emptied, the products
/// are collected in it, and the page that loads the application is written beside
/// them.
pub open spec fn output_stages(platform: Platform, context: ContextView) -> Seq<StageView> {
    seq![
        StageView::Do { request: RequestView::Delete { path: output_dir_of(context) } },
        StageView::Do {
            request: RequestView::Collect {
                platform,
                output: output_dir_of(context),
                sources: products(context),
            },
        },
        StageView::Do {
            request: RequestView::WriteBytes {
                path: joined(output_dir_of(context), "index.html"@),
                content: encode_utf8(INDEX_HTML_TEMPLATE@),
            },
        },
    ]
}

/// The command that opens the product in the browser.
pub open spec fn launch_command(platform: Platform) -> Seq<char> {
    let opener = match platform {
        Platform::Windows => "start"@,
        Platform::Posix => "open"@,
    };
    opener + " http://localhost:8000"@
}

/// The stages that show the product: the browser is opened, and a web server serves
/// the output directory.
pub open spec fn browser_stages(platform: Platform, context: ContextView) -> Seq<StageView> {
    seq![
        run_stage(platform, launch_command(platform)),
        run_stage_in(platform, SERVE_COMMAND@, output_dir_of(context)),
    ]
}

/// The stages of the build for the web.
pub open spec fn build_stages(platform: Platform, context: ContextView) -> Seq<StageView> {
    summary_stages_of(context) + seq![
        run_stage(platform, INSTALL_TARGET_COMMAND@),
        run_stage(platform, INSTALL_SERVER_COMMAND@),
    ] + sdk_stages(platform, context) + seq![
        running(platform, compile_script(platform, context)),
    ] + output_stages(platform, context) + browser_stages(platform, context)
}

/// The stages that install what the build needs of Rust.
pub fn install_rust_dependencies(platform: Platform) -> (r: VecDeque<Stage>)
    ensures
        stages_of(r@) == seq![
            run_stage(platform, INSTALL_TARGET_COMMAND@),
            run_stage(platform, INSTALL_SERVER_COMMAND@),
        ],
{
    let mut stages: VecDeque<Stage> = VecDeque::new();
    then(&mut stages, run_script(platform, INSTALL_TARGET_COMMAND));
    then(&mut stages, run_script(platform, INSTALL_SERVER_COMMAND));
    assert(stages_of(stages@) =~= seq![
        run_stage(platform, INSTALL_TARGET_COMMAND@),
        run_stage(platform, INSTALL_SERVER_COMMAND@),
    ]);
    stages
}

/// The name under which the Emscripten SDK is kept in the working directory.
pub fn sdk_dir_name() -> (r: String)
    ensures
        r@ == sdk_dir_name_text(),
{
    let mut name = String::from_str("emscripten-sdk-");
    name.append(EMSCRIPTEN_VERSION);
    name
}

/// The directory of the Emscripten SDK.
pub fn sdk_dir(context: &Context) -> (r: String)
    ensures
        r@ == sdk_dir_of(context@),
{
    join(context.working_dir.as_str(), sdk_dir_name().as_str())
}

fn emsdk(platform: Platform, context: &Context, action: &str) -> (r: Stage)
    ensures
        r@ == run_stage(platform, emsdk_command(context@, action@)),
{
    let tool = join(sdk_dir(context).as_str(), "emsdk");
    let mut command = quoted(tool.as_str());
    command.append(" ");
    command.append(action);
    command.append(" ");
    command.append(EMSCRIPTEN_VERSION);
    run_script(platform, command.as_str())
}

/// The stages that provide the Emscripten SDK.
pub fn configure_emscripten_sdk(platform: Platform, context: &Context) -> (r: VecDeque<Stage>)
    ensures
        stages_of(r@) == sdk_stages(platform, context@),
{
    let mut stages: VecDeque<Stage> = VecDeque::new();
    then_do(
        &mut stages,
        Request::Fetch {
            platform,
            url: String::from_str(EMSCRIPTEN_URL),
            name: sdk_dir_name(),
            parent_dir: context.working_dir.clone(),
        },
    );
    then(&mut stages, emsdk(platform, context, "install"));
    then(&mut stages, emsdk(platform, context, "activate"));
    assert(stages_of(stages@) =~= sdk_stages(platform, context@));
    stages
}

/// The stage that compiles the application.
pub fn compile_application(platform: Platform, context: &Context) -> (r: Stage)
    ensures
        r@ == running(platform, compile_script(platform, context@)),
{
    let mut flags = String::from_str(
        r#"-s EXPORTED_FUNCTIONS='["_main","_fileno"]' -O2 -s USE_SDL=2 -s USE_SDL_IMAGE=2 -s SDL2_IMAGE_FORMATS='["png"]' -s USE_WEBGL2=1 --preload-file "#,
    );
    flags.append(quoted(context.assets_dir.as_str()).as_str());
    flags.append("@/assets");
    let mut environment = Environment::new();
    environment.insert("EMCC_CFLAGS", flags.as_str());
    let mut command = match platform {
        Platform::Windows => String::from_str("emsdk_env.bat &"),
        Platform::Posix => String::from_str(". ./emsdk_env.sh &&"),
    };
    command.append(" cargo rustc ");
    command.append(context.variant.rust_compiler_flag());
    command.append(" --manifest-path ");
    command.append(quoted(join(context.source_dir.as_str(), "Cargo.toml").as_str()).as_str());
    command.append(" --target wasm32-unknown-emscripten --bin crust --target-dir ");
    command.append(quoted(context.rust_build_dir.as_str()).as_str());
    let script = Script::new(command.as_str()).working_dir(sdk_dir(context).as_str()).environment(
        &environment,
    );
    Stage::Do { request: Request::Run { platform, script } }
}

/// The stages that make the product in the output directory.
pub fn create_output(platform: Platform, context: &Context) -> (r: VecDeque<Stage>)
    ensures
        stages_of(r@) == output_stages(platform, context@),
{
    let dir = join3(
        context.rust_build_dir.as_str(),
        WASM_TARGET,
        context.variant.id(),
        "deps",
    );
    let mut sources: Vec<String> = Vec::new();
    sources.push(join(dir.as_str(), "crust.wasm"));
    sources.push(join(dir.as_str(), "crust.data"));
    sources.push(join(dir.as_str(), "crust.js"));
    assert(texts_of(sources@) =~= products(context@));
    let mut stages: VecDeque<Stage> = VecDeque::new();
    then_do(&mut stages, Request::Delete { path: output_dir(context) });
    then_do(&mut stages, Request::Collect { platform, output: output_dir(context), sources });
    then_do(
        &mut stages,
        Request::WriteBytes {
            path: join(output_dir(context).as_str(), "index.html"),
            content: INDEX_HTML_TEMPLATE.as_bytes_vec(),
        },
    );
    assert(stages_of(stages@) =~= output_stages(platform, context@));
    stages
}

/// The stages that show the product in the browser.
pub fn open_in_browser(platform: Platform, context: &Context) -> (r: VecDeque<Stage>)
    ensures
        stages_of(r@) == browser_stages(platform, context@),
{
    let mut command = match platform {
        Platform::Windows => String::from_str("start"),
        Platform::Posix => String::from_str("open"),
    };
    command.append(" http://localhost:8000");
    let mut stages: VecDeque<Stage> = VecDeque::new();
    then(&mut stages, run_script(platform, command.as_str()));
    then(&mut stages, run_script_in(platform, SERVE_COMMAND, output_dir(context).as_str()));
    assert(stages_of(stages@) =~= browser_stages(platform, context@));
    stages
}

/// Builds the application for the web and shows it in the browser.
pub fn build(platform: Platform, context: &Context) -> (next: Next<Recipe>)
    ensures
        next@ == recipe_start(build_stages(platform, context@)),
{
    let mut stages = context.summary_stages();
    then_all(&mut stages, install_rust_dependencies(platform));
    then_all(&mut stages, configure_emscripten_sdk(platform, context));
    then(&mut stages, compile_application(platform, context));
    then_all(&mut stages, create_output(platform, context));
    then_all(&mut stages, open_in_browser(platform, context));
    assert(stages_of(stages@) =~= build_stages(platform, context@));
    Recipe::start(stages)
}

} // verus!
