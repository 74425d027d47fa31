use pgfplots::decimal::Decimal;
use pgfplots::document::tikzpicture::axis::plot::bidimensional::coordinate::Coordinate2D;
use pgfplots::document::tikzpicture::axis::plot::bidimensional::{Plot2D, PlotOption, Type2D};
use pgfplots::document::tikzpicture::axis::plot::Plot;
use pgfplots::document::tikzpicture::axis::{Axis, AxisOption, Ticks};
use pgfplots::document::tikzpicture::{TikzPicture, TikzPictureOption};
use pgfplots::document::preamble::PgfPlotsLib;
use pgfplots::document::Document;
use pgfplots::libs::statistics::histogram::{Histogram, HistogramOption};

#[test]
fn ticks() {
    let ticks = Ticks::new(vec![
        Decimal::from_int(1),
        Decimal::new(false, 22, 1),
        Decimal::new(false, 33, 1),
        Decimal::from_int(4),
    ]);
    assert_eq!(r#"1, 2.2, 3.3, 4"#, ticks.render());
}

#[test]
fn required_libs() {
    let plot = Histogram::new();
    let histogram = Histogram::new();

    let mut axis = Axis::new();
    axis.add_plot(Plot::Histogram(plot));
    axis.add_plot(Plot::Histogram(histogram));

    let mut picture = TikzPicture::new();
    picture.add_axis(axis);

    assert_eq!(
        [PgfPlotsLib::Statistics].as_slice(),
        &picture.required_libs()
    );
}

#[test]
fn decimal_text_forms() {
    assert_eq!("0", Decimal::from_int(0).render());
    assert_eq!("-3", Decimal::from_int(-3).render());
    assert_eq!("10.05", Decimal::new(false, 1005, 2).render());
    assert_eq!("5", Decimal::new(false, 500, 2).render());
    assert_eq!("-0.5", Decimal::new(true, 5, 1).render());
    assert_eq!("0", Decimal::new(true, 0, 5).render());
    assert_eq!("0.001", Decimal::new(false, 1, 3).render());
    assert_eq!("18446744073709551615", Decimal::new(false, u64::MAX, 0).render());
}

#[test]
fn empty_document_renders_scenario() {
    let mut document = Document::new();
    let mut picture = TikzPicture::new();
    picture.add_axis(Axis::new());
    document.add_picture(picture);
    assert_eq!(
        "\\documentclass{standalone}\n\\usepackage{pgfplots}\n\\pgfplotsset{compat=default}\n\n\\begin{document}\n\\begin{tikzpicture}\n\\begin{axis}\n\\end{axis}\n\\end{tikzpicture}\n\\end{document}",
        document.standalone_string()
    );
}

#[test]
fn plot2d_coordinate_lines() {
    let mut plot = Plot2D::new();
    plot.add_coordinate(Coordinate2D::new(Decimal::from_int(0), Decimal::from_int(0)));
    plot.add_coordinate(Coordinate2D::new(Decimal::from_int(1), Decimal::from_int(1)));
    assert_eq!(
        "\t\\addplot[] coordinates {\n\t\t(0,0)\n\t\t(1,1)\n\t};",
        plot.render()
    );
}

#[test]
fn axis_minimum_override() {
    let mut axis = Axis::new();
    axis.set_x_min(Decimal::from_int(0));
    axis.set_x_min(Decimal::from_int(5));
    assert_eq!("\\begin{axis}[\n\txmin={5},\n]\n\\end{axis}", axis.render());
}

#[test]
fn custom_options_accumulate() {
    let mut axis = Axis::new();
    axis.add_option(AxisOption::Custom("style A".to_string()));
    axis.add_option(AxisOption::Custom("style A".to_string()));
    axis.add_option(AxisOption::Custom("style B".to_string()));
    assert_eq!(
        "\\begin{axis}[\n\tstyle A,\n\tstyle A,\n\tstyle B,\n]\n\\end{axis}",
        axis.render()
    );
}

#[test]
fn plot_option_override_keeps_last() {
    let plot = Plot2D::new()
        .option(PlotOption::Type2D(Type2D::SharpPlot))
        .option(PlotOption::Custom("mark=x".to_string()))
        .option(PlotOption::Type2D(Type2D::OnlyMarks));
    assert_eq!(
        "\t\\addplot[\n\t\tmark=x,\n\t\tonly marks,\n\t] coordinates {\n\t};",
        plot.render()
    );
}

#[test]
fn same_content_renders_identically() {
    let one = Axis::new().x_min(Decimal::from_int(0)).x_min(Decimal::from_int(5));
    let two = Axis::new().x_min(Decimal::from_int(5));
    assert_eq!(one.render(), two.render());
}

#[test]
fn rendering_twice_is_stable() {
    let mut document = Document::new();
    let mut axis = Axis::new();
    axis.set_title("stability".to_string());
    let mut picture = TikzPicture::new();
    picture.add_axis(axis);
    document.add_picture(picture);
    let first = document.standalone_string();
    let second = document.standalone_string();
    assert_eq!(first, second);
}

#[test]
fn requirement_propagates_exactly_once() {
    let mut document = Document::new();
    for _ in 0..2 {
        let mut axis = Axis::new();
        axis.add_plot(Plot::Histogram(Histogram::new()));
        axis.add_plot(Plot::Histogram(Histogram::new()));
        let mut picture = TikzPicture::new();
        picture.add_axis(axis);
        document.add_picture(picture);
    }
    let rendered = document.standalone_string();
    assert_eq!(
        1,
        rendered.matches("\\usepgfplotslibrary{statistics}").count()
    );
}

#[test]
fn histogram_block_with_options() {
    let mut histogram = Histogram::from_data(vec![Decimal::from_int(1), Decimal::from_int(2)]);
    histogram.set_bins(3);
    assert_eq!(
        "\t\\addplot+ [\n\t\thist={\n\t\t\tbins=3,\n\t\t}\n\t] table [row sep=\\\\, y index=0] {\n\t\tdata \\\\\n\t\t1 \\\\\n\t\t2 \\\\\n\t};",
        histogram.render()
    );
}

#[test]
fn histogram_block_without_options() {
    let histogram = Histogram::new();
    assert_eq!(
        "\t\\addplot+ [\n\t\thist,\n\t] table [row sep=\\\\, y index=0] {\n\t\tdata \\\\\n\t};",
        histogram.render()
    );
}

#[test]
fn histogram_option_override_keeps_last() {
    let histogram = Histogram::new()
        .data_min(Decimal::from_int(0))
        .data_min(Decimal::from_int(5));
    let rendered = histogram.render();
    assert_eq!(1, rendered.matches("data min=").count());
    assert!(rendered.contains("data min={5}"));
}

#[test]
fn coordinate_error_bar_suffix() {
    let bare = Coordinate2D::new(Decimal::from_int(1), Decimal::from_int(-1));
    assert_eq!("(1,-1)", bare.render());
    let with_errors = Coordinate2D::with_errors(
        Decimal::from_int(1),
        Decimal::from_int(-1),
        None,
        Some(Decimal::from_int(3)),
    );
    assert_eq!("(1,-1)\t+- (0,3)", with_errors.render());
}

#[test]
fn draw_command_render() {
    let plot = Plot::Draw("(0,0) -- (1,1)".to_string());
    assert_eq!("\\draw (0,0) -- (1,1);", plot.render());
}

#[test]
fn picture_option_lines() {
    let mut picture = TikzPicture::new();
    picture.add_option(TikzPictureOption::Custom("baseline".to_string()));
    assert_eq!(
        "\\begin{tikzpicture}[\n\tbaseline,\n]\n\\end{tikzpicture}",
        picture.render()
    );
}

#[test]
fn unimplemented_histogram_options_are_flagged() {
    assert!(!HistogramOption::Data.implemented());
    assert!(!HistogramOption::DataValue.implemented());
    assert!(HistogramOption::Bins(4).implemented());
}
