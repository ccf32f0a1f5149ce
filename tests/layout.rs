use pdfing::geometry::{to_output_x, to_output_y};
use pdfing::text::{flow_node, flow_section, split_into_lines};
use pdfing::{
    generate_pdf, place_image, Doc, DrawOp, ImageSource, Layer, PdfBlock, RenderError, TextNode,
};

fn node(content: &str, font_size: i64, line_height: i64) -> TextNode {
    TextNode {
        content: content.to_string(),
        font_size,
        line_height,
    }
}

fn text_ops(layer: &Layer) -> Vec<(i64, i64, i64, String)> {
    layer
        .ops
        .iter()
        .map(|op| match op {
            DrawOp::Text {
                x,
                y,
                font_size,
                line,
            } => (*x, *y, *font_size, line.clone()),
            DrawOp::Image { .. } => panic!("expected text"),
        })
        .collect()
}

#[test]
fn test_generate_pdf() {
    let doc = Doc::new(215_900, 279_400);
    let blocks = vec![
        PdfBlock::Image {
            image: ImageSource::Pixels {
                width: 600,
                height: 300,
            },
            dpi: 300_000,
            pos: (200_000, 20_000),
        },
        PdfBlock::TextSection {
            nodes: vec![
                node("Serendipitous Reflections", 24_000, 24_000),
                node(
                    "In the grand fooo of life's comedy,\n\
                     the keen eye discerns humor lurking amidst the everyday trivialities.",
                    12_000,
                    14_000,
                ),
            ],
            pos: (20_000, 40_000),
        },
        PdfBlock::TextSection {
            nodes: vec![
                node("Tapestry of Time", 24_000, 24_000),
                node(
                    "Behold! The threads of fate weaving storied pasts\n\
                     with present musings, like a fashion show designed by Cosmo Kramer.",
                    12_000,
                    14_000,
                ),
            ],
            pos: (20_000, 100_000),
        },
    ];
    let layers = generate_pdf(&doc, blocks).unwrap();
    assert_eq!(layers.len(), 3);
    assert_eq!(layers[0].ops.len(), 1);
    assert_eq!(layers[1].ops.len(), 3);
    assert_eq!(layers[2].ops.len(), 3);
    let third = text_ops(&layers[2]);
    assert_eq!(third[0], (20_000, 179_400, 24_000, "Tapestry of Time".to_string()));
    assert_eq!(third[1].1, 155_400);
    assert_eq!(third[2].1, 141_400);
}

#[test]
fn output_y_is_page_height_minus_y() {
    assert_eq!(to_output_y(40_000, 279_400), Some(239_400));
    assert_eq!(to_output_y(239_400, 279_400), Some(40_000));
    assert_eq!(to_output_y(0, 279_400), Some(279_400));
    assert_eq!(to_output_y(i64::MIN, 1), None);
    assert_eq!(to_output_x(20_000), 20_000);
}

#[test]
fn output_y_flipped_twice_is_identity() {
    for (y, h) in [(0, 1), (-5, 7), (123_456, 279_400), (300_000, 279_400)] {
        let once = to_output_y(y, h).unwrap();
        assert_eq!(to_output_y(once, h), Some(y));
    }
}

#[test]
fn splitting_gives_one_more_line_than_breaks() {
    assert_eq!(split_into_lines("a\nbc\n\nd"), vec!["a", "bc", "", "d"]);
    assert_eq!(split_into_lines("one line"), vec!["one line"]);
    assert_eq!(split_into_lines("\n"), vec!["", ""]);
    assert_eq!(split_into_lines("é\nü"), vec!["é", "ü"]);
}

#[test]
fn empty_content_is_one_empty_line() {
    assert_eq!(split_into_lines(""), vec![String::new()]);
    let mut ops = Vec::new();
    let end = flow_node(&node("", 10_000, 5_000), 1_000, 50_000, &mut ops);
    assert_eq!(end, Some(45_000));
    assert_eq!(ops.len(), 1);
}

#[test]
fn cursor_advances_by_lines_times_line_height() {
    let mut ops = Vec::new();
    let end = flow_node(&node("a\nb\nc", 12_000, 14_000), 7_000, 100_000, &mut ops);
    assert_eq!(end, Some(100_000 - 3 * 14_000));
    let ys: Vec<(i64, i64)> = ops
        .iter()
        .map(|op| match op {
            DrawOp::Text { x, y, .. } => (*x, *y),
            DrawOp::Image { .. } => panic!("expected text"),
        })
        .collect();
    assert_eq!(ys, vec![(7_000, 100_000), (7_000, 86_000), (7_000, 72_000)]);
}

#[test]
fn cursor_leaving_the_range_draws_nothing() {
    let mut ops = Vec::new();
    let end = flow_node(&node("a\nb", 12_000, i64::MAX), 0, 0, &mut ops);
    assert_eq!(end, None);
    assert!(ops.is_empty());
    assert!(flow_section(&vec![node("a", 1, i64::MAX), node("b", 1, 2)], 0, 0).is_none());
}

#[test]
fn image_anchor_is_top_right_corner() {
    let p = place_image(600, 300, 300_000, (200_000, 20_000), 279_400).unwrap();
    assert_eq!((p.width, p.height), (144_000, 72_000));
    assert_eq!(p.x, 56_000);
    assert_eq!(p.y, 187_400);
}

#[test]
fn image_size_rounds_down() {
    let p = place_image(1, 1, 7_000, (0, 0), 100_000).unwrap();
    assert_eq!(p.width, 10_285);
    assert_eq!(p.y, 100_000 - 10_285);
}

#[test]
fn non_positive_dpi_is_invalid() {
    for dpi in [0, -300_000] {
        let r = place_image(600, 300, dpi, (200_000, 20_000), 279_400);
        assert!(matches!(r, Err(RenderError::InvalidParameter)));
        let doc = Doc::new(215_900, 279_400);
        let block = PdfBlock::Image {
            image: ImageSource::Pixels {
                width: 600,
                height: 300,
            },
            dpi,
            pos: (200_000, 20_000),
        };
        let mut layer = doc.add_layer();
        assert!(matches!(
            block.render(&mut layer, &doc),
            Err(RenderError::InvalidParameter)
        ));
        assert!(layer.ops.is_empty());
    }
}

#[test]
fn image_out_of_range() {
    let r = place_image(600, 300, 300_000, (i64::MIN, 0), 279_400);
    assert!(matches!(r, Err(RenderError::OutOfRange)));
}

#[test]
fn non_positive_text_sizes_are_invalid() {
    let doc = Doc::new(215_900, 279_400);
    for (fs, lh) in [(0, 10), (10, 0), (-1, 10)] {
        let block = PdfBlock::TextSection {
            nodes: vec![node("ok", 10, 10), node("bad", fs, lh)],
            pos: (0, 0),
        };
        let mut layer = doc.add_layer();
        assert!(matches!(
            block.render(&mut layer, &doc),
            Err(RenderError::InvalidParameter)
        ));
        assert!(layer.ops.is_empty());
    }
}

#[test]
fn empty_text_section_draws_nothing() {
    let doc = Doc::new(100, 100);
    let block = PdfBlock::TextSection {
        nodes: vec![],
        pos: (5, 5),
    };
    let mut layer = doc.add_layer();
    assert!(block.render(&mut layer, &doc).is_ok());
    assert!(layer.ops.is_empty());
}

#[test]
fn first_failure_stops_the_document() {
    let doc = Doc::new(215_900, 279_400);
    let blocks = vec![
        PdfBlock::TextSection {
            nodes: vec![node("A", 12_000, 12_000)],
            pos: (0, 10_000),
        },
        PdfBlock::Image {
            image: ImageSource::Unreadable {
                source: "missing.jpeg".to_string(),
                cause: "not found".to_string(),
            },
            dpi: 300_000,
            pos: (0, 0),
        },
        PdfBlock::TextSection {
            nodes: vec![node("C", 0, 12_000)],
            pos: (0, 10_000),
        },
    ];
    let err = generate_pdf(&doc, blocks).err().unwrap();
    assert_eq!(err.index, 1);
    match err.cause {
        RenderError::Decode { source, cause } => {
            assert_eq!(source, "missing.jpeg");
            assert_eq!(cause, "not found");
        }
        _ => panic!("expected a decode error"),
    }
}

#[test]
fn end_to_end_cumulative_advances() {
    let doc = Doc::new(215_900, 279_400);
    assert_eq!((doc.width(), doc.height()), (215_900, 279_400));
    let blocks = vec![PdfBlock::TextSection {
        nodes: vec![node("Title", 24_000, 24_000), node("Body\nLine2", 12_000, 14_000)],
        pos: (20_000, 40_000),
    }];
    let layers = generate_pdf(&doc, blocks).unwrap();
    assert_eq!(
        text_ops(&layers[0]),
        vec![
            (20_000, 239_400, 24_000, "Title".to_string()),
            (20_000, 215_400, 12_000, "Body".to_string()),
            (20_000, 201_400, 12_000, "Line2".to_string()),
        ]
    );
}

#[test]
fn image_block_draws_one_image() {
    let doc = Doc::new(215_900, 279_400);
    let block = PdfBlock::Image {
        image: ImageSource::Pixels {
            width: 600,
            height: 300,
        },
        dpi: 300_000,
        pos: (200_000, 20_000),
    };
    let mut layer = doc.add_layer();
    block.render(&mut layer, &doc).unwrap();
    match &layer.ops[..] {
        [DrawOp::Image {
            x,
            y,
            width,
            height,
            dpi,
        }] => assert_eq!((*x, *y, *width, *height, *dpi), (56_000, 187_400, 144_000, 72_000, 300_000)),
        _ => panic!("expected one image"),
    }
}

#[test]
fn text_section_out_of_range() {
    let doc = Doc::new(1, 1);
    let block = PdfBlock::TextSection {
        nodes: vec![node("x", 1, 1)],
        pos: (0, i64::MIN),
    };
    let mut layer = doc.add_layer();
    assert!(matches!(
        block.render(&mut layer, &doc),
        Err(RenderError::OutOfRange)
    ));
    assert!(layer.ops.is_empty());
}
