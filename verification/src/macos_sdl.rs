use std::collections::VecDeque;
use vstd::prelude::*;
use vstd::utf8::encode_utf8;
use crate::context::{Context, ContextView};
use crate::effect::{Request, RequestView};
use crate::paths::{join, joined};
use crate::platform::Platform;
use crate::recipe::{
    Stage, StageView, run_script_in, run_stage_in, stages_of, then, then_all, then_do,
};

verus! {

/// Where the sources of SDL2 are published.
pub const SDL2_URL: &'static str = "https://www.libsdl.org/release/SDL2-2.0.14.zip";

/// The name under which the sources of SDL2 are kept in the working directory.
pub const SDL2_DIR: &'static str = "SDL2";

/// The name of the framework of SDL2.
pub const SDL2_FRAMEWORK_NAME: &'static str = "SDL2.framework";

/// Where the sources of SDL2_image are published.
pub const SDL2_IMAGE_URL: &'static str =
    "https://www.libsdl.org/projects/SDL_image/release/SDL2_image-2.0.5.zip";

/// The name under which the sources of SDL2_image are kept in the working directory.
pub const SDL2_IMAGE_DIR: &'static str = "SDL2_image";

/// The name of the framework of SDL2_image.
pub const SDL2_IMAGE_FRAMEWORK_NAME: &'static str = "SDL2_image.framework";

/// The name of the directory in which the framework of SDL2_image is built.
pub const SDL2_IMAGE_CUSTOM_FRAMEWORK_DIR: &'static str = "SDL2_image_custom_framework";

/// The command that archives the framework of SDL2.
pub const SDL2_ARCHIVE_COMMAND: &'static str =
    r#"xcodebuild archive -scheme Framework -destination "platform=macOS" -archivePath ./SDL2.xcarchive SKIP_INSTALL=NO BUILD_LIBRARY_FOR_DISTRIBUTION=YES"#;

/// The command that archives the framework of SDL2_image.
pub const SDL2_IMAGE_ARCHIVE_COMMAND: &'static str =
    r#"xcodebuild archive -scheme SDL2_image -destination "platform=macOS" -archivePath ./SDL2_image.xcarchive SKIP_INSTALL=NO BUILD_LIBRARY_FOR_DISTRIBUTION=YES"#;

/// The command that generates the Xcode project of the framework of SDL2_image.
pub const GENERATE_COMMAND: &'static str = "xcodegen generate";

/// The definition of the Xcode project that builds the framework of SDL2_image.
pub const SDL2_IMAGE_CUSTOM_FRAMEWORK_PROJECT_DEFINITION: &'static str = r#"
name: SDL2_image
options:
    createIntermediateGroups: true
    deploymentTarget:
        macOS: "10.12"

targets:
    SDL2_image:
        type: framework
        platform: macOS
        info:
            path: Generated/Info.plist
            properties:
                CFBundleIdentifier: org.libsdl.SDL2-image
                CFBundleVersion: 2.0.5
                CFBundleShortVersionString: 2.0.5
        entitlements:
            path: Generated/app.entitlements
        sources:
            - Source/SDL_image.h
            - Source/IMG.c
            - Source/IMG_ImageIO.m
            - Source/IMG_bmp.c
            - Source/IMG_gif.c
            - Source/IMG_jpg.c
            - Source/IMG_lbm.c
            - Source/IMG_pcx.c
            - Source/IMG_png.c
            - Source/IMG_pnm.c
            - Source/IMG_svg.c
            - Source/IMG_tga.c
            - Source/IMG_tif.c
            - Source/IMG_webp.c
            - Source/IMG_xcf.c
            - Source/IMG_xpm.c
            - Source/IMG_xv.c
            - Source/IMG_xxx.c
        settings:
            DYLIB_COMPATIBILITY_VERSION: 3.0.0
            DYLIB_CURRENT_VERSION: 3.2.0
            CLANG_ENABLE_OBJC_ARC: NO
            GCC_PREPROCESSOR_DEFINITIONS:
                - "$(inherited)"
                - "LOAD_BMP"
                - "LOAD_JPG"
                - "LOAD_PNG"
            HEADER_SEARCH_PATHS:
                - $(SRCROOT)/../SDL2/include
            LIBRARY_SEARCH_PATHS:
                - $(inherited)
                - $(PROJECT_DIR)
                - $(PROJECT_DIR)/Frameworks
        dependencies:
            - framework: Frameworks/SDL2.framework
              embed: false
            - sdk: ApplicationServices.framework
            - sdk: Foundation.framework
"#;

/// The directory that holds the frameworks of the build.
pub open spec fn frameworks_dir_of(context: ContextView) -> Seq<char> {
    joined(context.working_dir, "Frameworks"@)
}

/// Where an Xcode archive in `project_dir` keeps the framework `name` that it built.
pub open spec fn archived_framework(
    project_dir: Seq<char>,
    archive: Seq<char>,
    name: Seq<char>,
) -> Seq<char> {
    joined(
        joined(joined(joined(joined(project_dir, archive), "Products"@), "Library"@), "Frameworks"@),
        name,
    )
}

/// Where an Xcode archive in `project_dir` keeps the framework `name` that it built.
pub fn framework_in_archive(project_dir: &str, archive: &str, name: &str) -> (r: String)
    ensures
        r@ == archived_framework(project_dir@, archive@, name@),
{
    let a = join(project_dir, archive);
    let b = join(a.as_str(), "Products");
    let c = join(b.as_str(), "Library");
    let d = join(c.as_str(), "Frameworks");
    join(d.as_str(), name)
}

/// The stages that provide the framework of SDL2, unless it is there: its sources are
/// fetched, Xcode archives the framework, and the framework is copied out of the
/// archive.
pub open spec fn sdl2_stages(
    platform: Platform,
    context: ContextView,
    frameworks: Seq<char>,
) -> Seq<StageView> {
    let output = joined(frameworks, SDL2_FRAMEWORK_NAME@);
    let project_dir = joined(joined(joined(context.working_dir, SDL2_DIR@), "Xcode"@), "SDL"@);
    seq![
        StageView::Unless { path: output, count: 3 },
        StageView::Do {
            request: RequestView::Fetch {
                platform,
                url: SDL2_URL@,
                name: SDL2_DIR@,
                parent_dir: context.working_dir,
            },
        },
        run_stage_in(platform, SDL2_ARCHIVE_COMMAND@, project_dir),
        StageView::Do {
            request: RequestView::Copy {
                platform,
                source: archived_framework(project_dir, "SDL2.xcarchive"@, SDL2_FRAMEWORK_NAME@),
                destination: output,
            },
        },
    ]
}

/// The stages that provide the framework of SDL2_image, unless it is there: its
/// sources are fetched; a fresh directory gets links to the sources and to the
/// frameworks and the definition of an Xcode project; the project is generated and
/// archived, and the framework is copied out of the archive.
pub open spec fn sdl2_image_stages(
    platform: Platform,
    context: ContextView,
    frameworks: Seq<char>,
) -> Seq<StageView> {
    let output = joined(frameworks, SDL2_IMAGE_FRAMEWORK_NAME@);
    let custom = joined(context.working_dir, SDL2_IMAGE_CUSTOM_FRAMEWORK_DIR@);
    seq![
        StageView::Unless { path: output, count: 9 },
        StageView::Do {
            request: RequestView::Fetch {
                platform,
                url: SDL2_IMAGE_URL@,
                name: SDL2_IMAGE_DIR@,
                parent_dir: context.working_dir,
            },
        },
        StageView::Do { request: RequestView::Delete { path: custom } },
        StageView::Do { request: RequestView::CreateDirAll { path: custom } },
        StageView::Do {
            request: RequestView::CreateSymlink {
                platform,
                source: joined(context.working_dir, SDL2_IMAGE_DIR@),
                target: "Source"@,
                working_dir: custom,
            },
        },
        StageView::Do {
            request: RequestView::CreateSymlink {
                platform,
                source: frameworks,
                target: "Frameworks"@,
                working_dir: custom,
            },
        },
        StageView::Do {
            request: RequestView::WriteBytes {
                path: joined(custom, "project.yml"@),
                content: encode_utf8(SDL2_IMAGE_CUSTOM_FRAMEWORK_PROJECT_DEFINITION@),
            },
        },
        run_stage_in(platform, GENERATE_COMMAND@, custom),
        run_stage_in(platform, SDL2_IMAGE_ARCHIVE_COMMAND@, custom),
        StageView::Do {
            request: RequestView::Copy {
                platform,
                source: archived_framework(
                    custom,
                    "SDL2_image.xcarchive"@,
                    SDL2_IMAGE_FRAMEWORK_NAME@,
                ),
                destination: output,
            },
        },
    ]
}

/// The stages that provide the frameworks of SDL2 and SDL2_image in the directory of
/// frameworks, which is created.
pub open spec fn setup_stages(platform: Platform, context: ContextView) -> Seq<StageView> {
    seq![StageView::Do { request: RequestView::CreateDirAll { path: frameworks_dir_of(context) } }]
        + sdl2_stages(platform, context, frameworks_dir_of(context)) + sdl2_image_stages(
        platform,
        context,
        frameworks_dir_of(context),
    )
}

/// The directory that holds the frameworks of the build.
pub fn frameworks_dir(context: &Context) -> (r: String)
    ensures
        r@ == frameworks_dir_of(context@),
{
    join(context.working_dir.as_str(), "Frameworks")
}

/// The stages that provide the framework of SDL2 in `frameworks_dir`.
pub fn setup_sdl2(platform: Platform, context: &Context, frameworks_dir: &str) -> (r: VecDeque<Stage>)
    ensures
        stages_of(r@) == sdl2_stages(platform, context@, frameworks_dir@),
{
    let output = join(frameworks_dir, SDL2_FRAMEWORK_NAME);
    let sources = join(context.working_dir.as_str(), SDL2_DIR);
    let xcode = join(sources.as_str(), "Xcode");
    let project_dir = join(xcode.as_str(), "SDL");
    let mut stages: VecDeque<Stage> = VecDeque::new();
    then(&mut stages, Stage::Unless { path: output.clone(), count: 3 });
    then_do(
        &mut stages,
        Request::Fetch {
            platform,
            url: String::from_str(SDL2_URL),
            name: String::from_str(SDL2_DIR),
            parent_dir: context.working_dir.clone(),
        },
    );
    then(&mut stages, run_script_in(platform, SDL2_ARCHIVE_COMMAND, project_dir.as_str()));
    then_do(
        &mut stages,
        Request::Copy {
            platform,
            source: framework_in_archive(
                project_dir.as_str(),
                "SDL2.xcarchive",
                SDL2_FRAMEWORK_NAME,
            ),
            destination: output,
        },
    );
    assert(stages_of(stages@) =~= sdl2_stages(platform, context@, frameworks_dir@));
    stages
}

/// The stages that provide the framework of SDL2_image in `frameworks_dir`.
pub fn setup_sdl2_image(platform: Platform, context: &Context, frameworks_dir: &str) -> (r:
    VecDeque<Stage>)
    ensures
        stages_of(r@) == sdl2_image_stages(platform, context@, frameworks_dir@),
{
    let output = join(frameworks_dir, SDL2_IMAGE_FRAMEWORK_NAME);
    let custom = join(context.working_dir.as_str(), SDL2_IMAGE_CUSTOM_FRAMEWORK_DIR);
    let mut stages: VecDeque<Stage> = VecDeque::new();
    then(&mut stages, Stage::Unless { path: output.clone(), count: 9 });
    then_do(
        &mut stages,
        Request::Fetch {
            platform,
            url: String::from_str(SDL2_IMAGE_URL),
            name: String::from_str(SDL2_IMAGE_DIR),
            parent_dir: context.working_dir.clone(),
        },
    );
    then_do(&mut stages, Request::Delete { path: custom.clone() });
    then_do(&mut stages, Request::CreateDirAll { path: custom.clone() });
    then_do(
        &mut stages,
        Request::CreateSymlink {
            platform,
            source: join(context.working_dir.as_str(), SDL2_IMAGE_DIR),
            target: String::from_str("Source"),
            working_dir: custom.clone(),
        },
    );
    then_do(
        &mut stages,
        Request::CreateSymlink {
            platform,
            source: String::from_str(frameworks_dir),
            target: String::from_str("Frameworks"),
            working_dir: custom.clone(),
        },
    );
    then_do(
        &mut stages,
        Request::WriteBytes {
            path: join(custom.as_str(), "project.yml"),
            content: SDL2_IMAGE_CUSTOM_FRAMEWORK_PROJECT_DEFINITION.as_bytes_vec(),
        },
    );
    then(&mut stages, run_script_in(platform, GENERATE_COMMAND, custom.as_str()));
    then(&mut stages, run_script_in(platform, SDL2_IMAGE_ARCHIVE_COMMAND, custom.as_str()));
    then_do(
        &mut stages,
        Request::Copy {
            platform,
            source: framework_in_archive(
                custom.as_str(),
                "SDL2_image.xcarchive",
                SDL2_IMAGE_FRAMEWORK_NAME,
            ),
            destination: output,
        },
    );
    assert(stages_of(stages@) =~= sdl2_image_stages(platform, context@, frameworks_dir@));
    stages
}

/// The stages that provide the frameworks of SDL2 and SDL2_image, and the directory
/// that holds them.
pub fn setup(platform: Platform, context: &Context) -> (r: (VecDeque<Stage>, String))
    ensures
        stages_of(r.0@) == setup_stages(platform, context@),
        r.1@ == frameworks_dir_of(context@),
{
    let frameworks = frameworks_dir(context);
    let mut stages: VecDeque<Stage> = VecDeque::new();
    then_do(&mut stages, Request::CreateDirAll { path: frameworks.clone() });
    then_all(&mut stages, setup_sdl2(platform, context, frameworks.as_str()));
    then_all(&mut stages, setup_sdl2_image(platform, context, frameworks.as_str()));
    assert(stages_of(stages@) =~= setup_stages(platform, context@));
    (stages, frameworks)
}

} // verus!
