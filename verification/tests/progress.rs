use youtube_downloader::progress::{
    classify_line, extract_title, DownloadProgress, LineSignal, Phase, ProgressState, EPSILON,
    EXTRACTION_MARK, FULL, MERGE_MARK,
};

fn percent(fraction: u32) -> f64 {
    fraction as f64 / 100.0
}

#[test]
fn percent_line_sets_fraction_and_phase() {
    let mut state = ProgressState::new(1);
    let out = state.process_line("[download]  45.2% of 3.1MiB at 500KiB/s ETA 00:03");
    assert_eq!(state.item_fraction(), 4520);
    assert_eq!(percent(state.item_fraction()), 45.2);
    assert_eq!(state.phase(), Phase::Downloading);
    assert_eq!(
        out,
        vec![DownloadProgress {
            overall_fraction: 4520,
            current_item_index: Some(1),
            total_items: Some(1),
            item_fraction: 4520,
            phase: Phase::Downloading,
            current_title: None,
        }]
    );
}

#[test]
fn classify_reads_each_kind_of_line() {
    assert_eq!(
        classify_line("[download]  45.2% of 3.1MiB at 500KiB/s ETA 00:03"),
        LineSignal::Percent(4520)
    );
    assert_eq!(classify_line("[download] 100% of 3.1MiB"), LineSignal::Percent(10000));
    assert_eq!(
        classify_line("[ExtractAudio] Destination: song.mp3"),
        LineSignal::Extraction
    );
    assert_eq!(classify_line("[Merger] Merging formats into \"a.mkv\""), LineSignal::Merge);
    assert_eq!(classify_line("Merging formats"), LineSignal::Merge);
    assert_eq!(
        classify_line("[youtube] Extracting URL: https://www.youtube.com/watch?v=abc"),
        LineSignal::ItemStart
    );
    assert_eq!(
        classify_line("[youtube] abc: Downloading webpage"),
        LineSignal::ItemStart
    );
    assert_eq!(classify_line("[youtube] Video ID: abc"), LineSignal::ItemStart);
    assert_eq!(classify_line("[youtube] nothing of note"), LineSignal::Unrecognized);
    assert_eq!(
        classify_line("[download] Destination: song.webm"),
        LineSignal::ItemDone { preexisting: false }
    );
    assert_eq!(
        classify_line("[download] song.mp3 has already been downloaded"),
        LineSignal::ItemDone { preexisting: true }
    );
    assert_eq!(classify_line("WARNING: something odd"), LineSignal::Unrecognized);
    assert_eq!(classify_line(""), LineSignal::Unrecognized);
}

#[test]
fn percent_needs_the_download_marker() {
    assert_eq!(classify_line("progress 45.2% done"), LineSignal::Unrecognized);
}

#[test]
fn percent_token_stands_directly_before_the_sign() {
    assert_eq!(classify_line("[download] 45.2 % of x"), LineSignal::Unrecognized);
    assert_eq!(classify_line("[download] % of x"), LineSignal::Unrecognized);
    assert_eq!(classify_line("[download] 1e5% of x"), LineSignal::Percent(500));
    assert_eq!(classify_line("[download] x7% and 50%"), LineSignal::Percent(700));
}

#[test]
fn percent_values_are_parsed_exactly() {
    assert_eq!(classify_line("[download] 0%"), LineSignal::Percent(0));
    assert_eq!(classify_line("[download] 0.0%"), LineSignal::Percent(0));
    assert_eq!(classify_line("[download] 7%"), LineSignal::Percent(700));
    assert_eq!(classify_line("[download] 7.%"), LineSignal::Percent(700));
    assert_eq!(classify_line("[download] .5%"), LineSignal::Percent(50));
    assert_eq!(classify_line("[download] 12.34%"), LineSignal::Percent(1234));
    assert_eq!(classify_line("[download] 12.349%"), LineSignal::Percent(1234));
    assert_eq!(classify_line("[download] 99.9%"), LineSignal::Percent(9990));
    assert_eq!(classify_line("[download] 007.50%"), LineSignal::Percent(750));
}

#[test]
fn percent_values_are_clamped() {
    assert_eq!(classify_line("[download] 100.5%"), LineSignal::Percent(FULL));
    assert_eq!(classify_line("[download] 250%"), LineSignal::Percent(FULL));
    assert_eq!(
        classify_line("[download] 99999999999999999999999999%"),
        LineSignal::Percent(FULL)
    );
}

#[test]
fn malformed_numbers_are_ignored() {
    assert_eq!(classify_line("[download] .%"), LineSignal::Unrecognized);
    assert_eq!(classify_line("[download] 1.2.3%"), LineSignal::Unrecognized);
    assert_eq!(classify_line("[download] ..5%"), LineSignal::Unrecognized);
    let mut state = ProgressState::new(3);
    assert!(state.process_line("[download] 1.2.3% of x").is_empty());
    assert_eq!(state.item_fraction(), 0);
    assert_eq!(state.phase(), Phase::Preparing);
}

#[test]
fn unrecognized_lines_change_nothing() {
    let mut state = ProgressState::new(2);
    state.process_line("[download] 10.0% of x");
    let before = state.record();
    assert!(state.process_line("WARNING: unable to do a thing").is_empty());
    assert!(state.process_line("").is_empty());
    assert_eq!(state.record(), before);
}

#[test]
fn near_duplicates_are_not_reported() {
    let mut state = ProgressState::new(1);
    assert_eq!(state.process_line("[download] 10.0% of x").len(), 1);
    assert!(state.process_line("[download] 10.05% of x").is_empty());
    assert!(state.process_line("[download] 10.1% of x").is_empty());
    assert_eq!(state.item_fraction(), 1000);
    assert_eq!(state.process_line("[download] 10.11% of x").len(), 1);
    assert_eq!(state.item_fraction(), 1011);
    assert_eq!(EPSILON, 10);
}

#[test]
fn first_percent_line_reports_the_phase() {
    let mut state = ProgressState::new(1);
    let out = state.process_line("[download] 0.0% of x");
    assert_eq!(out.len(), 1);
    assert_eq!(out[0].phase, Phase::Downloading);
    assert_eq!(out[0].item_fraction, 0);
    assert!(state.process_line("[download] 0.0% of x").is_empty());
}

#[test]
fn conversion_lines_set_the_watermark() {
    let mut state = ProgressState::new(1);
    let out = state.process_line("[ExtractAudio] Destination: a.mp3");
    assert_eq!(out.len(), 1);
    assert_eq!(out[0].item_fraction, EXTRACTION_MARK);
    assert_eq!(percent(out[0].item_fraction), 90.0);
    assert_eq!(out[0].phase, Phase::Converting);
    assert!(state.process_line("[ExtractAudio] Destination: a.mp3").is_empty());
    let out = state.process_line("[Merger] Merging formats into a.mkv");
    assert_eq!(out.len(), 1);
    assert_eq!(out[0].item_fraction, MERGE_MARK);
    assert_eq!(percent(out[0].item_fraction), 95.0);
    assert_eq!(out[0].phase, Phase::Converting);
}

#[test]
fn item_start_after_completion_moves_on() {
    let mut state = ProgressState::new(4);
    state.set_title("First".to_string());
    state.process_line("[download] 100% of x");
    let out = state.process_line("[youtube] Extracting URL: https://youtu.be/next");
    assert_eq!(
        out,
        vec![DownloadProgress {
            overall_fraction: 2500,
            current_item_index: Some(2),
            total_items: Some(4),
            item_fraction: 0,
            phase: Phase::Preparing,
            current_title: None,
        }]
    );
    assert_eq!(state.completed_items(), 1);
    assert_eq!(state.current_item_index(), 1);
    assert_eq!(state.current_title(), None);
}

#[test]
fn item_start_before_completion_is_no_transition() {
    let mut state = ProgressState::new(4);
    state.process_line("[download] 50% of x");
    assert!(state
        .process_line("[youtube] Extracting URL: https://youtu.be/next")
        .is_empty());
    assert_eq!(state.item_fraction(), 5000);
    assert_eq!(state.completed_items(), 0);
    assert_eq!(state.current_item_index(), 0);
}

#[test]
fn item_start_counts_from_ninety_nine_percent() {
    let mut state = ProgressState::new(2);
    state.process_line("[download] 98.8% of x");
    assert!(state.process_line("[youtube] Video ID: b").is_empty());
    state.process_line("[download] 99.0% of x");
    assert_eq!(state.process_line("[youtube] Video ID: b").len(), 1);
    assert_eq!(state.completed_items(), 1);
}

#[test]
fn destination_line_completes_the_item() {
    let mut state = ProgressState::new(2);
    let out = state.process_line("[download] Destination: a.webm");
    assert_eq!(out.len(), 1);
    assert_eq!(out[0].item_fraction, FULL);
    assert_eq!(out[0].phase, Phase::Complete);
    assert_eq!(out[0].overall_fraction, 5000);
    assert_eq!(state.completed_items(), 1);
    assert!(state.process_line("[download] Destination: a.webm").is_empty());
    assert_eq!(state.completed_items(), 1);
}

#[test]
fn already_downloaded_line_skips_the_item() {
    let mut state = ProgressState::new(2);
    let out = state.process_line("[download] a.mp3 has already been downloaded");
    assert_eq!(out.len(), 1);
    assert_eq!(out[0].phase, Phase::Skipped);
    assert_eq!(out[0].item_fraction, FULL);
    assert_eq!(state.completed_items(), 1);
}

#[test]
fn completed_items_never_exceed_total() {
    let mut state = ProgressState::new(1);
    state.process_line("[download] Destination: a.webm");
    state.process_line("[youtube] Extracting URL: x");
    state.process_line("[download] Destination: b.webm");
    assert_eq!(state.completed_items(), 1);
    assert_eq!(state.total_items(), 1);
    assert!(state.overall_fraction() <= FULL);
}

#[test]
fn title_is_captured_once() {
    assert_eq!(
        extract_title("[info] Title:  My Song  "),
        Some("My Song".to_string())
    );
    assert_eq!(extract_title("TITLE: Loud"), Some("Loud".to_string()));
    assert_eq!(extract_title("subtitle language: en"), Some("en".to_string()));
    assert_eq!(extract_title("title without colon"), None);
    assert_eq!(extract_title("title:    "), None);
    assert_eq!(extract_title("nothing here: at all"), None);
    let mut state = ProgressState::new(1);
    let out = state.process_line("[info] title: First");
    assert_eq!(out.len(), 1);
    assert_eq!(out[0].current_title, Some("First".to_string()));
    assert!(state.process_line("[info] title: Second").is_empty());
    assert_eq!(state.current_title(), Some("First".to_string()));
}

#[test]
fn title_must_be_shorter_than_the_limit() {
    let long = "x".repeat(200);
    assert_eq!(extract_title(&format!("title: {}", long)), None);
    let fits = "x".repeat(199);
    assert_eq!(extract_title(&format!("title: {}", fits)), Some(fits));
}

#[test]
fn title_and_signal_on_one_line_give_two_records() {
    let mut state = ProgressState::new(1);
    let out = state.process_line("[download] 12.0% title: Both");
    assert_eq!(out.len(), 2);
    assert_eq!(out[0].item_fraction, 1200);
    assert_eq!(out[0].current_title, None);
    assert_eq!(out[1].item_fraction, 1200);
    assert_eq!(out[1].current_title, Some("Both".to_string()));
}

#[test]
fn overall_fraction_follows_the_formula() {
    let mut state = ProgressState::new(4);
    state.begin_item(2);
    state.process_line("[download] 50.0% of x");
    // (2 + 50/100) / 4 * 100 = 62.5
    assert_eq!(state.overall_fraction(), 6250);
    assert_eq!(percent(state.overall_fraction()), 62.5);
    let mut three = ProgressState::new(3);
    three.begin_item(1);
    three.process_line("[download] 10.0% of x");
    // (1 + 0.1) / 3 * 100 = 36.666..., cut to hundredths
    assert_eq!(three.overall_fraction(), 3666);
}

#[test]
fn overall_fraction_of_one_item_is_the_item_fraction() {
    let mut state = ProgressState::new(1);
    state.process_line("[download] 33.3% of x");
    assert_eq!(state.overall_fraction(), 3330);
    let mut none = ProgressState::new(0);
    none.process_line("[download] 33.3% of x");
    assert_eq!(none.overall_fraction(), 3330);
}

#[test]
fn rising_percent_lines_never_lower_progress() {
    let mut state = ProgressState::new(3);
    state.begin_item(1);
    let lines = [
        "[download]   0.0% of 3.1MiB",
        "[download]   0.0% of 3.1MiB",
        "[download]   1.3% of 3.1MiB",
        "[download]   1.35% of 3.1MiB",
        "[download]  45.2% of 3.1MiB",
        "[download]  45.2% of 3.1MiB",
        "[download]  99.95% of 3.1MiB",
        "[download] 100% of 3.1MiB",
        "[download] 100% of 3.1MiB",
    ];
    let mut item = state.item_fraction();
    let mut overall = state.overall_fraction();
    for line in lines {
        state.process_line(line);
        assert!(state.item_fraction() >= item);
        assert!(state.overall_fraction() >= overall);
        item = state.item_fraction();
        overall = state.overall_fraction();
    }
    assert_eq!(item, 9995);
}

#[test]
fn begin_item_resets_the_item() {
    let mut state = ProgressState::new(5);
    state.set_title("Old".to_string());
    state.process_line("[download] 80% of x");
    let record = state.begin_item(3);
    assert_eq!(
        record,
        DownloadProgress {
            overall_fraction: 6000,
            current_item_index: Some(4),
            total_items: Some(5),
            item_fraction: 0,
            phase: Phase::Preparing,
            current_title: None,
        }
    );
    assert_eq!(state.completed_items(), 3);
}

#[test]
fn mark_skipped_and_complete_close_the_item() {
    let mut state = ProgressState::new(2);
    state.begin_item(0);
    let skipped = state.mark_skipped();
    assert_eq!(skipped.phase, Phase::Skipped);
    assert_eq!(skipped.item_fraction, FULL);
    assert_eq!(skipped.overall_fraction, 5000);
    state.begin_item(1);
    let done = state.mark_complete();
    assert_eq!(done.phase, Phase::Complete);
    assert_eq!(done.current_item_index, Some(2));
    assert_eq!(done.overall_fraction, FULL);
    assert_eq!(state.completed_items(), 2);
}

#[test]
fn an_item_is_counted_once() {
    let mut state = ProgressState::new(4);
    state.process_line("[download] Destination: a.webm");
    assert_eq!(state.completed_items(), 1);
    assert_eq!(state.overall_fraction(), 2500);
    let out = state.process_line("[youtube] Extracting URL: next");
    assert_eq!(out.len(), 1);
    assert_eq!(state.completed_items(), 1);
    assert_eq!(state.current_item_index(), 1);
    assert_eq!(out[0].overall_fraction, 2500);
    state.process_line("[download] 100% of x");
    assert_eq!(state.overall_fraction(), 5000);
    state.process_line("[youtube] Extracting URL: next");
    assert_eq!(state.completed_items(), 2);
    assert_eq!(state.overall_fraction(), 5000);
}

#[test]
fn finish_always_reports_completion() {
    let mut state = ProgressState::new(7);
    state.begin_item(2);
    state.set_title("Half".to_string());
    state.process_line("[download] 12% of x");
    let last = state.finish();
    assert_eq!(
        last,
        DownloadProgress {
            overall_fraction: FULL,
            current_item_index: Some(7),
            total_items: Some(7),
            item_fraction: FULL,
            phase: Phase::Complete,
            current_title: None,
        }
    );
    assert_eq!(percent(last.overall_fraction), 100.0);
    assert_eq!(state.phase(), Phase::Complete);
    assert_eq!(state.completed_items(), 7);
}

#[test]
fn phases_have_labels() {
    assert_eq!(Phase::Preparing.label(), "Preparing download...");
    assert_eq!(Phase::Downloading.label(), "Downloading...");
    assert_eq!(Phase::Converting.label(), "Converting to MP3...");
    assert_eq!(Phase::Skipped.label(), "Already exists, skipping...");
    assert_eq!(Phase::Complete.label(), "Download complete");
}
