use site_mirror::errors::{exit_code, MirrorError};
use site_mirror::mirror::{
    accept_page, classify_response, output_file_name, page_output_file_name, plan,
    process_embedded, process_fetched, AssetKind, FetchOutcome, FetchTask, FileContent,
    MirrorStep, StepResult,
};

const BASE: &str = "https://example.com/news/post.html";

fn fixture_html() -> String {
    String::from(
        "<html><head>\
         <link rel=\"stylesheet\" href=\"https://example.com/css/main.css\">\
         <link rel=\"stylesheet\" href=\"https://example.com/css/theme.css\">\
         <style>.inline { color: red; }</style>\
         </head><body>\
         <img src=\"https://example.com/a/logo.png\">\
         <img src=\"http://cdn.example.net/banner.jpg\">\
         <img src=\"pics/photo.jpg\">\
         <script src=\"https://example.com/js/app.js\"></script>\
         </body></html>",
    )
}

fn task(step: &MirrorStep) -> &FetchTask {
    match step {
        MirrorStep::Fetch(t) => t,
        _ => panic!("expected a fetch step"),
    }
}

#[test]
fn plan_orders_phases_and_resolves_images() {
    let html = fixture_html();
    let steps = plan(BASE, &html).unwrap();
    assert_eq!(steps.len(), 8);

    let t0 = task(&steps[0]);
    assert_eq!(t0.kind, AssetKind::Stylesheet);
    assert_eq!(t0.url, "https://example.com/css/main.css");
    assert_eq!(t0.file_name, "stylemain.css");

    let t1 = task(&steps[1]);
    assert_eq!(t1.kind, AssetKind::Stylesheet);
    assert_eq!(t1.file_name, "styletheme.css");

    match &steps[2] {
        MirrorStep::WriteEmbedded(css) => assert_eq!(css, ".inline { color: red; }"),
        _ => panic!("expected the embedded style step"),
    }

    let t3 = task(&steps[3]);
    assert_eq!(t3.kind, AssetKind::Image);
    assert_eq!(t3.url, "https://example.com/a/logo.png");
    assert_eq!(t3.file_name, "imagelogo.png");

    let t4 = task(&steps[4]);
    assert_eq!(t4.kind, AssetKind::Image);
    assert_eq!(t4.url, "http://cdn.example.net/banner.jpg");

    let t5 = task(&steps[5]);
    assert_eq!(t5.kind, AssetKind::Image);
    assert_eq!(t5.url, "https://example.com/news/pics/photo.jpg");
    assert_eq!(t5.file_name, "imagephoto.jpg");

    let t6 = task(&steps[6]);
    assert_eq!(t6.kind, AssetKind::Script);
    assert_eq!(t6.url, "https://example.com/js/app.js");
    assert_eq!(t6.file_name, "scriptapp.js");

    match &steps[7] {
        MirrorStep::WritePage(h) => assert_eq!(h, &html),
        _ => panic!("expected the page write step"),
    }
}

fn simulate(steps: &[MirrorStep], outcomes: &mut dyn FnMut(&FetchTask) -> FetchOutcome)
    -> (Vec<String>, usize) {
    let mut written: Vec<String> = Vec::new();
    let mut failures: usize = 0;
    for step in steps {
        match step {
            MirrorStep::Fetch(t) => {
                let result = process_fetched(t.kind, &t.file_name, outcomes(t));
                match result {
                    StepResult::Write { file_name, .. } => written.push(file_name),
                    StepResult::Skip { .. } => failures += 1,
                }
            }
            MirrorStep::WriteEmbedded(css) => match process_embedded(css) {
                StepResult::Write { file_name, .. } => written.push(file_name),
                StepResult::Skip { .. } => failures += 1,
            },
            MirrorStep::WritePage(_) => written.push(page_output_file_name()),
        }
    }
    (written, failures)
}

#[test]
fn full_run_writes_one_file_per_asset() {
    let html = fixture_html();
    let steps = plan(BASE, &html).unwrap();
    let (written, failures) = simulate(&steps, &mut |t: &FetchTask| match t.kind {
        AssetKind::Image => FetchOutcome::Success(vec![0xffu8, 0xd8, 0x00]),
        _ => FetchOutcome::Success(".x { color: green; }".as_bytes().to_vec()),
    });
    assert_eq!(failures, 0);
    assert_eq!(
        written,
        vec![
            "stylemain.css",
            "styletheme.css",
            "embedded_css.css",
            "imagelogo.png",
            "imagebanner.jpg",
            "imagephoto.jpg",
            "scriptapp.js",
            "output.html",
        ]
    );
}

#[test]
fn stylesheet_404_is_absorbed_and_the_rest_still_written() {
    let html = fixture_html();
    let steps = plan(BASE, &html).unwrap();
    let (written, failures) = simulate(&steps, &mut |t: &FetchTask| {
        if t.file_name == "stylemain.css" {
            classify_response(404, Vec::new())
        } else if t.kind == AssetKind::Image {
            FetchOutcome::Success(vec![1u8, 2, 3])
        } else {
            FetchOutcome::Success(".x{}".as_bytes().to_vec())
        }
    });
    assert_eq!(failures, 1);
    assert_eq!(
        written,
        vec![
            "styletheme.css",
            "embedded_css.css",
            "imagelogo.png",
            "imagebanner.jpg",
            "imagephoto.jpg",
            "scriptapp.js",
            "output.html",
        ]
    );
}

#[test]
fn page_500_aborts_before_anything_is_planned() {
    let outcome = classify_response(500, "<html></html>".as_bytes().to_vec());
    let result = accept_page(outcome);
    assert!(matches!(result, Err(MirrorError::Http(500))));
}

#[test]
fn page_transport_failure_aborts() {
    let result = accept_page(FetchOutcome::TransportError(String::from("connection refused")));
    assert!(matches!(result, Err(MirrorError::Transport(_))));
}

#[test]
fn page_success_yields_decoded_text() {
    let outcome = classify_response(204, "<html>ok</html>".as_bytes().to_vec());
    let html = accept_page(outcome).unwrap();
    assert_eq!(html, "<html>ok</html>");
}

#[test]
fn page_body_that_is_not_utf8_is_a_decode_error() {
    let outcome = classify_response(200, vec![0xffu8, 0xfe, 0x00]);
    let result = accept_page(outcome);
    assert!(matches!(result, Err(MirrorError::Decode)));
}

#[test]
fn colliding_final_segments_share_one_output_file() {
    let a = "https://example.com/a/logo.png";
    let b = "https://example.com/b/logo.png";
    let name_a = output_file_name(AssetKind::Image, a);
    let name_b = output_file_name(AssetKind::Image, b);
    assert_eq!(name_a, "imagelogo.png");
    assert_eq!(name_a, name_b);
}

#[test]
fn fetched_image_bytes_pass_through_unchanged() {
    let bytes = vec![0u8, 159, 146, 150];
    let result = process_fetched(AssetKind::Image, "imagepic.png", FetchOutcome::Success(bytes.clone()));
    match result {
        StepResult::Write { file_name, content: FileContent::Binary(b) } => {
            assert_eq!(file_name, "imagepic.png");
            assert_eq!(b, bytes);
        }
        _ => panic!("expected a binary write"),
    }
}

#[test]
fn fetched_script_that_is_not_utf8_is_skipped() {
    let result = process_fetched(
        AssetKind::Script,
        "scriptapp.js",
        FetchOutcome::Success(vec![0xffu8, 0xfe]),
    );
    assert!(matches!(result, StepResult::Skip { error: MirrorError::Decode }));
}

#[test]
fn fetched_stylesheet_the_minifier_rejects_is_dropped() {
    let result = process_fetched(
        AssetKind::Stylesheet,
        "stylebroken.css",
        FetchOutcome::Success("}".as_bytes().to_vec()),
    );
    assert!(matches!(result, StepResult::Skip { error: MirrorError::Minify(_) }));
}

#[test]
fn fetched_stylesheet_is_minified_before_writing() {
    let result = process_fetched(
        AssetKind::Stylesheet,
        "stylemain.css",
        FetchOutcome::Success(".foo > p { color: red; }".as_bytes().to_vec()),
    );
    match result {
        StepResult::Write { file_name, content: FileContent::Text(t) } => {
            assert_eq!(file_name, "stylemain.css");
            assert_eq!(t, ".foo>p{color:red;}");
        }
        _ => panic!("expected a text write"),
    }
}

#[test]
fn transport_failure_on_an_asset_is_absorbed() {
    let result = process_fetched(
        AssetKind::Script,
        "scriptapp.js",
        FetchOutcome::TransportError(String::from("dns failure")),
    );
    assert!(matches!(result, StepResult::Skip { error: MirrorError::Transport(_) }));
}

#[test]
fn plan_fails_when_an_image_reference_cannot_be_resolved() {
    let html = "<html><body><img src=\"pic.png\"></body></html>";
    let result = plan("not a url", html);
    assert!(matches!(result, Err(MirrorError::InvalidUrl)));
}

#[test]
fn exit_codes_are_nonzero_and_distinct_per_error_class() {
    let codes = vec![
        exit_code(&MirrorError::Transport(String::from("x"))),
        exit_code(&MirrorError::Http(404)),
        exit_code(&MirrorError::Decode),
        exit_code(&MirrorError::Minify(String::from("y"))),
        exit_code(&MirrorError::InvalidUrl),
        exit_code(&MirrorError::FileWrite(String::from("z"))),
    ];
    for (i, a) in codes.iter().enumerate() {
        assert_ne!(*a, 0);
        for b in codes.iter().skip(i + 1) {
            assert_ne!(a, b);
        }
    }
}

#[test]
fn embedded_css_is_minified_into_its_fixed_file() {
    match process_embedded(".inline { color: red; }") {
        StepResult::Write { file_name, content: FileContent::Text(t) } => {
            assert_eq!(file_name, "embedded_css.css");
            assert_eq!(t, ".inline{color:red;}");
        }
        _ => panic!("expected a text write"),
    }
}
