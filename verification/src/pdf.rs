use vstd::prelude::*;
use vstd::string::*;

use crate::models::Lifecycle;
use crate::text::joined;

verus! {

/// `s` cut to at most `max` characters, with an ellipsis appended when
/// anything was cut.
pub open spec fn truncated(s: Seq<char>, max: int) -> Seq<char> {
    if s.len() <= max {
        s
    } else {
        s.take(max) + "…"@
    }
}

/// Executable counterpart of `truncated`.
pub fn truncate(s: &str, max: usize) -> (r: String)
    ensures
        r@ == truncated(s@, max as int),
{
    let l = s.unicode_len();
    if l <= max {
        s.to_owned()
    } else {
        let mut t = s.substring_char(0, max).to_owned();
        t.append("…");
        proof {
            assert(s@.subrange(0, max as int) =~= s@.take(max as int));
        }
        t
    }
}

/// One line of text to draw: its content, font size in points, and position
/// in millimetres from the page's left and bottom edges.
#[derive(Debug)]
pub struct PdfTextItem {
    pub text: String,
    pub font_size: u32,
    pub x_mm: u32,
    pub y_mm: u32,
}

/// One page of the export: a label and the lines it shows.
#[derive(Debug)]
pub struct PdfPage {
    pub label: String,
    pub items: Vec<PdfTextItem>,
}

/// The deterministic text-only export plan: a document title, a summary
/// page, and one page per stage. Rendering the plan to bytes is the host's
/// concern; nothing here depends on any drawing library.
#[derive(Debug)]
pub struct PdfPlan {
    pub title: String,
    pub pages: Vec<PdfPage>,
}

/// Builds the export plan for a lifecycle: title and summary from the
/// product and constraints, then per stage its name and truncated prompt.
pub fn generate_pdf_plan(lifecycle: &Lifecycle) -> (r: PdfPlan)
    ensures
        r.title@ == "Lifecycle: "@ + truncated(lifecycle@.product, 48),
        r.pages@.len() == 1 + lifecycle@.stages.len(),
        r.pages@[0].items@.len() == (if lifecycle@.constraints.len() > 0 {
            4int
        } else {
            3int
        }),
        r.pages@[0].items@[0].text@ == "Product Lifecycle Storyboard"@,
        r.pages@[0].items@[1].text@ == truncated(lifecycle@.product, 140),
        lifecycle@.constraints.len() > 0 ==> r.pages@[0].items@[2].text@ == "Constraints: "@
            + joined(lifecycle@.constraints, ", "@),
        r.pages@[0].items@[r.pages@[0].items@.len() - 1].text@
            == "(Images not embedded in PDF preview MVP)"@,
        forall|i: int|
            0 <= i < lifecycle@.stages.len() ==> {
                &&& (#[trigger] r.pages@[1 + i]).label@ == lifecycle@.stages[i].name
                &&& r.pages@[1 + i].items@.len() == 2
                &&& r.pages@[1 + i].items@[0].text@ == lifecycle@.stages[i].name
                &&& r.pages@[1 + i].items@[1].text@ == truncated(
                    lifecycle@.stages[i].prompt,
                    180,
                )
            },
{
    let mut title = "Lifecycle: ".to_owned();
    let short_product = truncate(lifecycle.product_description.as_str(), 48);
    title.append(short_product.as_str());
    let mut summary_items: Vec<PdfTextItem> = Vec::new();
    summary_items.push(
        PdfTextItem {
            text: "Product Lifecycle Storyboard".to_owned(),
            font_size: 20,
            x_mm: 15,
            y_mm: 275,
        },
    );
    summary_items.push(
        PdfTextItem {
            text: truncate(lifecycle.product_description.as_str(), 140),
            font_size: 11,
            x_mm: 15,
            y_mm: 260,
        },
    );
    if lifecycle.constraints.len() > 0 {
        let mut text = "Constraints: ".to_owned();
        let joined_parts = crate::text::join_all(&lifecycle.constraints, ", ");
        text.append(joined_parts.as_str());
        summary_items.push(PdfTextItem { text, font_size: 10, x_mm: 15, y_mm: 248 });
    }
    summary_items.push(
        PdfTextItem {
            text: "(Images not embedded in PDF preview MVP)".to_owned(),
            font_size: 8,
            x_mm: 15,
            y_mm: 236,
        },
    );
    let mut pages: Vec<PdfPage> = Vec::new();
    pages.push(PdfPage { label: "Layer 1".to_owned(), items: summary_items });
    let mut i: usize = 0;
    while i < lifecycle.stages.len()
        invariant
            i <= lifecycle.stages.len(),
            pages@.len() == 1 + i as int,
            pages@[0].items@.len() == (if lifecycle@.constraints.len() > 0 {
                4int
            } else {
                3int
            }),
            pages@[0].items@[0].text@ == "Product Lifecycle Storyboard"@,
            pages@[0].items@[1].text@ == truncated(lifecycle@.product, 140),
            lifecycle@.constraints.len() > 0 ==> pages@[0].items@[2].text@ == "Constraints: "@
                + joined(lifecycle@.constraints, ", "@),
            pages@[0].items@[pages@[0].items@.len() - 1].text@
                == "(Images not embedded in PDF preview MVP)"@,
            forall|k: int|
                0 <= k < i as int ==> {
                    &&& (#[trigger] pages@[1 + k]).label@ == lifecycle@.stages[k].name
                    &&& pages@[1 + k].items@.len() == 2
                    &&& pages@[1 + k].items@[0].text@ == lifecycle@.stages[k].name
                    &&& pages@[1 + k].items@[1].text@ == truncated(
                        lifecycle@.stages[k].prompt,
                        180,
                    )
                },
        decreases lifecycle.stages.len() - i,
    {
        let mut items: Vec<PdfTextItem> = Vec::new();
        items.push(
            PdfTextItem {
                text: lifecycle.stages[i].stage_name.clone(),
                font_size: 16,
                x_mm: 15,
                y_mm: 275,
            },
        );
        items.push(
            PdfTextItem {
                text: truncate(lifecycle.stages[i].prompt.as_str(), 180),
                font_size: 9,
                x_mm: 15,
                y_mm: 260,
            },
        );
        pages.push(PdfPage { label: lifecycle.stages[i].stage_name.clone(), items });
        i += 1;
    }
    PdfPlan { title, pages }
}

} // verus!
