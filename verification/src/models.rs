use vstd::prelude::*;
use crate::text::{decimal, join, push_decimal, push_joined, views_of};
use crate::json::{certifications_from_json, strings_from_json};

verus! {

/// The letter grade that belongs to an overall score (score bands of ten points).
pub open spec fn grade_of(score: int) -> &'static str {
    if 90 <= score && score <= 100 {
        "A+"
    } else if 80 <= score && score <= 89 {
        "A"
    } else if 70 <= score && score <= 79 {
        "B"
    } else if 60 <= score && score <= 69 {
        "C"
    } else if 50 <= score && score <= 59 {
        "C-"
    } else if 40 <= score && score <= 49 {
        "D"
    } else if 30 <= score && score <= 39 {
        "D-"
    } else if 20 <= score && score <= 29 {
        "E"
    } else if 10 <= score && score <= 19 {
        "F"
    } else {
        "F-"
    }
}

/// Letter grade for an overall score.
pub fn compute_grade(score: u8) -> (g: &'static str)
    ensures
        g@ == grade_of(score as int)@,
{
    if 90 <= score && score <= 100 {
        "A+"
    } else if 80 <= score && score <= 89 {
        "A"
    } else if 70 <= score && score <= 79 {
        "B"
    } else if 60 <= score && score <= 69 {
        "C"
    } else if 50 <= score && score <= 59 {
        "C-"
    } else if 40 <= score && score <= 49 {
        "D"
    } else if 30 <= score && score <= 39 {
        "D-"
    } else if 20 <= score && score <= 29 {
        "E"
    } else if 10 <= score && score <= 19 {
        "F"
    } else {
        "F-"
    }
}

} // verus!

verus! {

/// How the overall score is described in the rationale.
pub open spec fn overall_band_text(score: int) -> &'static str {
    if 80 <= score && score <= 100 {
        "an industry leader"
    } else if 65 <= score && score <= 79 {
        "strong"
    } else if 50 <= score && score <= 64 {
        "moderate"
    } else if 30 <= score && score <= 49 {
        "below average"
    } else {
        "poor"
    }
}

fn overall_band(score: u8) -> (r: &'static str)
    ensures
        r@ == overall_band_text(score as int)@,
{
    if 80 <= score && score <= 100 {
        "an industry leader"
    } else if 65 <= score && score <= 79 {
        "strong"
    } else if 50 <= score && score <= 64 {
        "moderate"
    } else if 30 <= score && score <= 49 {
        "below average"
    } else {
        "poor"
    }
}

pub open spec fn environmental_note_text(score: int) -> &'static str {
    if 65 <= score && score <= 100 {
        "strong use of lower-impact materials and documented action to cut emissions, water use, and waste"
    } else if 50 <= score && score <= 64 {
        "some lower-impact materials or efficiency efforts, with clear room to improve"
    } else if 30 <= score && score <= 49 {
        "limited publicly documented action on materials, emissions, water, or waste relative to peers"
    } else {
        "little publicly available evidence of meaningful action on materials, emissions, water, or waste"
    }
}

fn environmental_note(score: u8) -> (r: &'static str)
    ensures
        r@ == environmental_note_text(score as int)@,
{
    if 65 <= score && score <= 100 {
        "strong use of lower-impact materials and documented action to cut emissions, water use, and waste"
    } else if 50 <= score && score <= 64 {
        "some lower-impact materials or efficiency efforts, with clear room to improve"
    } else if 30 <= score && score <= 49 {
        "limited publicly documented action on materials, emissions, water, or waste relative to peers"
    } else {
        "little publicly available evidence of meaningful action on materials, emissions, water, or waste"
    }
}

pub open spec fn labor_note_text(score: int) -> &'static str {
    if 65 <= score && score <= 100 {
        "well-documented labor standards and supply-chain oversight"
    } else if 50 <= score && score <= 64 {
        "some labor commitments with partial supply-chain oversight"
    } else if 30 <= score && score <= 49 {
        "limited public disclosure of labor standards or supply-chain auditing"
    } else {
        "little publicly available evidence of enforced labor standards or independent auditing"
    }
}

fn labor_note(score: u8) -> (r: &'static str)
    ensures
        r@ == labor_note_text(score as int)@,
{
    if 65 <= score && score <= 100 {
        "well-documented labor standards and supply-chain oversight"
    } else if 50 <= score && score <= 64 {
        "some labor commitments with partial supply-chain oversight"
    } else if 30 <= score && score <= 49 {
        "limited public disclosure of labor standards or supply-chain auditing"
    } else {
        "little publicly available evidence of enforced labor standards or independent auditing"
    }
}

pub open spec fn transparency_note_text(score: int) -> &'static str {
    if 65 <= score && score <= 100 {
        "detailed public reporting and supply-chain traceability"
    } else if 50 <= score && score <= 64 {
        "partial public reporting on its supply chain"
    } else if 30 <= score && score <= 49 {
        "limited public reporting or traceability"
    } else {
        "minimal public disclosure of its supply chain or practices"
    }
}

fn transparency_note(score: u8) -> (r: &'static str)
    ensures
        r@ == transparency_note_text(score as int)@,
{
    if 65 <= score && score <= 100 {
        "detailed public reporting and supply-chain traceability"
    } else if 50 <= score && score <= 64 {
        "partial public reporting on its supply chain"
    } else if 30 <= score && score <= 49 {
        "limited public reporting or traceability"
    } else {
        "minimal public disclosure of its supply chain or practices"
    }
}

pub open spec fn animal_note_text(score: int) -> &'static str {
    if 65 <= score && score <= 100 {
        "clear animal-welfare policies or avoidance of high-harm materials"
    } else if 50 <= score && score <= 64 {
        "some animal-welfare policies in place"
    } else if 30 <= score && score <= 49 {
        "limited animal-welfare policy disclosure"
    } else {
        "little publicly available animal-welfare policy"
    }
}

fn animal_note(score: u8) -> (r: &'static str)
    ensures
        r@ == animal_note_text(score as int)@,
{
    if 65 <= score && score <= 100 {
        "clear animal-welfare policies or avoidance of high-harm materials"
    } else if 50 <= score && score <= 64 {
        "some animal-welfare policies in place"
    } else if 30 <= score && score <= 49 {
        "limited animal-welfare policy disclosure"
    } else {
        "little publicly available animal-welfare policy"
    }
}

} // verus!

verus! {

pub const RATIONALE_NO_CERTS: &'static str = "No third-party sustainability certifications are recorded for this brand.";

pub const RATIONALE_CERTS_LEAD: &'static str = "Recognised certifications in our records: ";

pub const RATIONALE_METHOD: &'static str = " overall for sustainability. This composite is the equal-weighted average of four dimensions:\n\n";

pub const RATIONALE_DISCLAIMER: &'static str = "\n\nThis rating is Rewoven's editorial assessment based on publicly available information and may not reflect a brand's most recent changes. It is an expression of opinion, not a statement of fact, and is provided for general information only. ";

pub const RATIONALE_REVIEW: &'static str = "Brands may request a review at arhan@rewovenapp.com.";

/// The sentence on certifications in a rationale.
pub open spec fn certifications_line(certs: Seq<Seq<char>>) -> Seq<char> {
    if certs.len() == 0 {
        RATIONALE_NO_CERTS@
    } else {
        RATIONALE_CERTS_LEAD@ + join(certs, ", "@) + "."@
    }
}

/// The opening of a rationale: the brand's overall score, grade and band,
/// and how the composite is made.
pub open spec fn rationale_opening(name: Seq<char>, overall: u8) -> Seq<char> {
    "Rewoven rates "@ + name + " "@ + decimal(overall as nat) + "/100 (grade "@ + grade_of(
        overall as int,
    )@ + ") - "@ + overall_band_text(overall as int)@ + RATIONALE_METHOD@
}

/// The middle of a rationale: a note per dimension, the certifications, the
/// category and summary, and the disclaimer.
pub open spec fn rationale_details(
    environmental: u8,
    labor: u8,
    transparency: u8,
    animal_welfare: u8,
    category: Seq<char>,
    certs: Seq<Seq<char>>,
    summary: Seq<char>,
) -> Seq<char> {
    "\u{2022} Environmental ("@ + decimal(environmental as nat) + "/100): "@
        + environmental_note_text(environmental as int)@ + ".\n\u{2022} Labor practices ("@
        + decimal(labor as nat) + "/100): "@ + labor_note_text(labor as int)@
        + ".\n\u{2022} Transparency ("@ + decimal(transparency as nat) + "/100): "@
        + transparency_note_text(transparency as int)@ + ".\n\u{2022} Animal welfare ("@ + decimal(
        animal_welfare as nat,
    ) + "/100): "@ + animal_note_text(animal_welfare as int)@ + ".\n\n"@ + certifications_line(certs)
        + " Assessed within the "@ + category + " category. "@ + summary + RATIONALE_DISCLAIMER@
}

/// The rationale text for a brand's ratings.
pub open spec fn rationale_text(
    name: Seq<char>,
    overall: u8,
    environmental: u8,
    labor: u8,
    transparency: u8,
    animal_welfare: u8,
    category: Seq<char>,
    certs: Seq<Seq<char>>,
    summary: Seq<char>,
) -> Seq<char> {
    rationale_opening(name, overall) + rationale_details(
        environmental,
        labor,
        transparency,
        animal_welfare,
        category,
        certs,
        summary,
    ) + RATIONALE_REVIEW@
}

/// Every rationale opens with the brand's overall score, grade and band and
/// the sentence on how the composite is made, and closes with the sentence
/// on how a brand may ask for a review.
pub proof fn law_rationale_frame(
    name: Seq<char>,
    overall: u8,
    environmental: u8,
    labor: u8,
    transparency: u8,
    animal_welfare: u8,
    category: Seq<char>,
    certs: Seq<Seq<char>>,
    summary: Seq<char>,
)
    ensures
        rationale_opening(name, overall).is_prefix_of(
            rationale_text(
                name,
                overall,
                environmental,
                labor,
                transparency,
                animal_welfare,
                category,
                certs,
                summary,
            ),
        ),
        RATIONALE_REVIEW@.is_suffix_of(
            rationale_text(
                name,
                overall,
                environmental,
                labor,
                transparency,
                animal_welfare,
                category,
                certs,
                summary,
            ),
        ),
{
    let o = rationale_opening(name, overall);
    let d = rationale_details(
        environmental,
        labor,
        transparency,
        animal_welfare,
        category,
        certs,
        summary,
    );
    let c = RATIONALE_REVIEW@;
    let t = o + d + c;
    assert(t.subrange(0, o.len() as int) =~= o);
    assert(t.subrange(t.len() - c.len(), t.len() as int) =~= c);
}

/// The editorial rationale for a brand: its scores with their grade and
/// band, a note per dimension, its certifications, its category and summary,
/// and the disclaimer.
pub fn build_rationale(
    name: &str,
    overall: u8,
    environmental: u8,
    labor: u8,
    transparency: u8,
    animal_welfare: u8,
    category: &str,
    certifications: &[String],
    summary: &str,
) -> (r: String)
    ensures
        r@ == rationale_text(
            name@,
            overall,
            environmental,
            labor,
            transparency,
            animal_welfare,
            category@,
            views_of(certifications@),
            summary@,
        ),
{
    let grade = compute_grade(overall);
    let mut certs_line = String::new();
    if certifications.len() == 0 {
        certs_line.append(RATIONALE_NO_CERTS);
    } else {
        certs_line.append(RATIONALE_CERTS_LEAD);
        push_joined(&mut certs_line, certifications, ", ");
        certs_line.append(".");
    }
    assert(certs_line@ == certifications_line(views_of(certifications@)));
    let mut s = String::new();
    s.append("Rewoven rates ");
    s.append(name);
    s.append(" ");
    push_decimal(&mut s, overall as u64);
    s.append("/100 (grade ");
    s.append(grade);
    s.append(") - ");
    s.append(overall_band(overall));
    s.append(RATIONALE_METHOD);
    assert(s@ == rationale_opening(name@, overall));
    let mut d = String::new();
    d.append("\u{2022} Environmental (");
    push_decimal(&mut d, environmental as u64);
    d.append("/100): ");
    d.append(environmental_note(environmental));
    d.append(".\n\u{2022} Labor practices (");
    push_decimal(&mut d, labor as u64);
    d.append("/100): ");
    d.append(labor_note(labor));
    d.append(".\n\u{2022} Transparency (");
    push_decimal(&mut d, transparency as u64);
    d.append("/100): ");
    d.append(transparency_note(transparency));
    d.append(".\n\u{2022} Animal welfare (");
    push_decimal(&mut d, animal_welfare as u64);
    d.append("/100): ");
    d.append(animal_note(animal_welfare));
    d.append(".\n\n");
    d.append(certs_line.as_str());
    d.append(" Assessed within the ");
    d.append(category);
    d.append(" category. ");
    d.append(summary);
    d.append(RATIONALE_DISCLAIMER);
    assert(d@ == rationale_details(
        environmental,
        labor,
        transparency,
        animal_welfare,
        category@,
        views_of(certifications@),
        summary@,
    ));
    s.append(d.as_str());
    s.append(RATIONALE_REVIEW);
    s
}

} // verus!

verus! {

/// A brand with its sustainability ratings.
#[derive(Debug)]
pub struct BrandRating {
    pub name: String,
    pub slug: String,
    pub overall_score: u8,
    pub grade: String,
    pub environmental_score: u8,
    pub labor_score: u8,
    pub transparency_score: u8,
    pub animal_welfare_score: u8,
    pub price_range: String,
    pub country: String,
    pub category: String,
    pub certifications: Vec<String>,
    pub summary: String,
    pub website: String,
    pub updated_at: String,
    pub sources: Vec<String>,
    pub rationale: String,
}

/// A brand assembled from the columns of a stored row: the grade is derived
/// from the overall score, the certifications are read from their JSON text
/// (an empty list when that text is not a JSON array of strings), and the
/// fields that the row does not hold are empty.
pub fn brand_from_columns(
    slug: String,
    name: String,
    overall_score: u8,
    environmental_score: u8,
    labor_score: u8,
    transparency_score: u8,
    animal_welfare_score: u8,
    price_range: String,
    country: String,
    category: String,
    certifications_json: &str,
    summary: String,
    website: String,
) -> (b: BrandRating)
    ensures
        b.slug == slug,
        b.name == name,
        b.overall_score == overall_score,
        b.grade@ == grade_of(overall_score as int)@,
        b.environmental_score == environmental_score,
        b.labor_score == labor_score,
        b.transparency_score == transparency_score,
        b.animal_welfare_score == animal_welfare_score,
        b.price_range == price_range,
        b.country == country,
        b.category == category,
        views_of(b.certifications@) == (match strings_from_json(certifications_json@) {
            Some(v) => v,
            None => Seq::<Seq<char>>::empty(),
        }),
        b.summary == summary,
        b.website == website,
        b.updated_at@ == Seq::<char>::empty(),
        b.sources@ == Seq::<String>::empty(),
        b.rationale@ == Seq::<char>::empty(),
{
    let certifications = certifications_from_json(certifications_json);
    BrandRating {
        slug,
        name,
        overall_score,
        grade: String::from_str(compute_grade(overall_score)),
        environmental_score,
        labor_score,
        transparency_score,
        animal_welfare_score,
        price_range,
        country,
        category,
        certifications,
        summary,
        website,
        updated_at: String::new(),
        sources: Vec::new(),
        rationale: String::new(),
    }
}

} // verus!

verus! {

/// Body of the health check.
pub struct HealthResponse {
    pub status: String,
    pub version: String,
    pub total_brands: usize,
}

/// The health answer of a running service of the given version holding
/// `total_brands` brands.
pub fn health_response(version: &str, total_brands: usize) -> (r: HealthResponse)
    ensures
        r.status@ == "ok"@,
        r.version@ == version@,
        r.total_brands == total_brands,
{
    HealthResponse {
        status: String::from_str("ok"),
        version: String::from_str(version),
        total_brands,
    }
}

} // verus!

verus! {

/// The ten grades from worst to best.
pub open spec fn grade_scale() -> Seq<&'static str> {
    seq!["F-", "F", "E", "D-", "D", "C-", "C", "B", "A", "A+"]
}

/// Position on the grade scale of the grade for `score`.
pub open spec fn grade_level(score: int) -> int {
    if 90 <= score && score <= 100 {
        9
    } else if 10 <= score && score <= 89 {
        score / 10
    } else {
        0
    }
}

/// On the 0-100 scale the grade is the one of the score's band of ten
/// (with 100 joining the 90s), and a higher score never gets a worse grade.
pub proof fn law_grade_bands_monotone(s1: int, s2: int)
    requires
        0 <= s1 <= s2 <= 100,
    ensures
        grade_of(s1) == grade_scale()[grade_level(s1)],
        grade_of(s2) == grade_scale()[grade_level(s2)],
        grade_level(s1) <= grade_level(s2),
{
}

/// Band of a dimension score, from 0 (under 30, or off the scale) to 3
/// (65 to 100).
pub open spec fn note_level(score: int) -> int {
    if 65 <= score && score <= 100 {
        3
    } else if 50 <= score && score <= 64 {
        2
    } else if 30 <= score && score <= 49 {
        1
    } else {
        0
    }
}

/// Band of an overall score, from 0 ("poor") to 4 (80 to 100).
pub open spec fn overall_level(score: int) -> int {
    if 80 <= score && score <= 100 {
        4
    } else if 65 <= score && score <= 79 {
        3
    } else if 50 <= score && score <= 64 {
        2
    } else if 30 <= score && score <= 49 {
        1
    } else {
        0
    }
}

/// The environmental notes, from the weakest record to the strongest.
pub open spec fn environmental_scale() -> Seq<&'static str> {
    seq![
        "little publicly available evidence of meaningful action on materials, emissions, water, or waste",
        "limited publicly documented action on materials, emissions, water, or waste relative to peers",
        "some lower-impact materials or efficiency efforts, with clear room to improve",
        "strong use of lower-impact materials and documented action to cut emissions, water use, and waste",
    ]
}

/// The labor notes, from the weakest record to the strongest.
pub open spec fn labor_scale() -> Seq<&'static str> {
    seq![
        "little publicly available evidence of enforced labor standards or independent auditing",
        "limited public disclosure of labor standards or supply-chain auditing",
        "some labor commitments with partial supply-chain oversight",
        "well-documented labor standards and supply-chain oversight",
    ]
}

/// The transparency notes, from the weakest record to the strongest.
pub open spec fn transparency_scale() -> Seq<&'static str> {
    seq![
        "minimal public disclosure of its supply chain or practices",
        "limited public reporting or traceability",
        "partial public reporting on its supply chain",
        "detailed public reporting and supply-chain traceability",
    ]
}

/// The animal-welfare notes, from the weakest record to the strongest.
pub open spec fn animal_scale() -> Seq<&'static str> {
    seq![
        "little publicly available animal-welfare policy",
        "limited animal-welfare policy disclosure",
        "some animal-welfare policies in place",
        "clear animal-welfare policies or avoidance of high-harm materials",
    ]
}

/// The descriptions of an overall score, from the weakest to the strongest.
pub open spec fn overall_scale() -> Seq<&'static str> {
    seq!["poor", "below average", "moderate", "strong", "an industry leader"]
}

/// The texts of a scale are pairwise different.
pub open spec fn distinct_texts(scale: Seq<&'static str>) -> bool {
    forall|i: int, j: int| 0 <= i < j < scale.len() ==> #[trigger] scale[i]@ != #[trigger] scale[j]@
}

/// Each dimension note is the one of its score's band (under 30, 30 to 49,
/// 50 to 64, 65 to 100), the four notes are different, so a note is given
/// exactly to the scores of its band, and a higher score never gets a
/// weaker note.
pub proof fn law_dimension_notes_follow_bands(s1: int, s2: int)
    ensures
        environmental_note_text(s1) == environmental_scale()[note_level(s1)],
        labor_note_text(s1) == labor_scale()[note_level(s1)],
        transparency_note_text(s1) == transparency_scale()[note_level(s1)],
        animal_note_text(s1) == animal_scale()[note_level(s1)],
        distinct_texts(environmental_scale()),
        distinct_texts(labor_scale()),
        distinct_texts(transparency_scale()),
        distinct_texts(animal_scale()),
        0 <= note_level(s1) < 4,
        30 <= s1 <= 49 <==> note_level(s1) == 1,
        65 <= s1 <= 100 <==> note_level(s1) == 3,
        0 <= s1 <= s2 <= 100 ==> note_level(s1) <= note_level(s2),
{
    lemma_scales_distinct();
}

/// The description of an overall score is the one of its band (under 30,
/// 30 to 49, 50 to 64, 65 to 79, 80 to 100), the five descriptions are
/// different, and a higher score never gets a weaker one.
pub proof fn law_overall_band_follows_bands(s1: int, s2: int)
    ensures
        overall_band_text(s1) == overall_scale()[overall_level(s1)],
        distinct_texts(overall_scale()),
        0 <= overall_level(s1) < 5,
        80 <= s1 <= 100 <==> overall_level(s1) == 4,
        0 <= s1 <= s2 <= 100 ==> overall_level(s1) <= overall_level(s2),
{
    lemma_scales_distinct();
}

proof fn lemma_scales_distinct()
    ensures
        distinct_texts(environmental_scale()),
        distinct_texts(labor_scale()),
        distinct_texts(transparency_scale()),
        distinct_texts(animal_scale()),
        distinct_texts(overall_scale()),
{
    lemma_environmental_scale_distinct();
    lemma_labor_scale_distinct();
    lemma_transparency_scale_distinct();
    lemma_animal_scale_distinct();
    lemma_overall_scale_distinct();
}

proof fn lemma_environmental_scale_distinct()
    ensures
        distinct_texts(environmental_scale()),
{
    reveal_strlit("little publicly available evidence of meaningful action on materials, emissions, water, or waste");
    reveal_strlit("limited publicly documented action on materials, emissions, water, or waste relative to peers");
    reveal_strlit("some lower-impact materials or efficiency efforts, with clear room to improve");
    reveal_strlit("strong use of lower-impact materials and documented action to cut emissions, water use, and waste");
    let e = environmental_scale();
    assert(e[0]@[3] != e[1]@[3]);
    assert(e[2]@[1] != e[3]@[1]);
    assert(e[0]@[0] != e[2]@[0] && e[0]@[0] != e[3]@[0] && e[1]@[0] != e[2]@[0] && e[1]@[0] != e[3]@[0]);
}

proof fn lemma_labor_scale_distinct()
    ensures
        distinct_texts(labor_scale()),
{
    reveal_strlit("little publicly available evidence of enforced labor standards or independent auditing");
    reveal_strlit("limited public disclosure of labor standards or supply-chain auditing");
    reveal_strlit("some labor commitments with partial supply-chain oversight");
    reveal_strlit("well-documented labor standards and supply-chain oversight");
    let l = labor_scale();
    assert(l[0]@[3] != l[1]@[3]);
    assert(l[2]@[0] != l[3]@[0]);
    assert(l[0]@[0] != l[2]@[0] && l[0]@[0] != l[3]@[0] && l[1]@[0] != l[2]@[0] && l[1]@[0] != l[3]@[0]);
}

proof fn lemma_transparency_scale_distinct()
    ensures
        distinct_texts(transparency_scale()),
{
    reveal_strlit("minimal public disclosure of its supply chain or practices");
    reveal_strlit("limited public reporting or traceability");
    reveal_strlit("partial public reporting on its supply chain");
    reveal_strlit("detailed public reporting and supply-chain traceability");
    let t = transparency_scale();
    assert(t[0]@[0] != t[1]@[0] && t[0]@[0] != t[2]@[0] && t[0]@[0] != t[3]@[0]);
    assert(t[1]@[0] != t[2]@[0] && t[1]@[0] != t[3]@[0] && t[2]@[0] != t[3]@[0]);
}

proof fn lemma_animal_scale_distinct()
    ensures
        distinct_texts(animal_scale()),
{
    reveal_strlit("little publicly available animal-welfare policy");
    reveal_strlit("limited animal-welfare policy disclosure");
    reveal_strlit("some animal-welfare policies in place");
    reveal_strlit("clear animal-welfare policies or avoidance of high-harm materials");
    let a = animal_scale();
    assert(a[0]@[3] != a[1]@[3]);
    assert(a[2]@[0] != a[3]@[0]);
    assert(a[0]@[0] != a[2]@[0] && a[0]@[0] != a[3]@[0] && a[1]@[0] != a[2]@[0] && a[1]@[0] != a[3]@[0]);
}

proof fn lemma_overall_scale_distinct()
    ensures
        distinct_texts(overall_scale()),
{
    reveal_strlit("poor");
    reveal_strlit("below average");
    reveal_strlit("moderate");
    reveal_strlit("strong");
    reveal_strlit("an industry leader");
    let o = overall_scale();
    assert(o[0]@[0] != o[1]@[0] && o[0]@[0] != o[2]@[0] && o[0]@[0] != o[3]@[0] && o[0]@[0] != o[4]@[0]);
    assert(o[1]@[0] != o[2]@[0] && o[1]@[0] != o[3]@[0] && o[1]@[0] != o[4]@[0]);
    assert(o[2]@[0] != o[3]@[0] && o[2]@[0] != o[4]@[0] && o[3]@[0] != o[4]@[0]);
}

} // verus!

verus! {

/// A brand as the single-brand answer shows it: with its rationale written
/// from its own ratings, category, certifications and summary.
pub fn brand_with_rationale(b: BrandRating) -> (r: BrandRating)
    ensures
        r.name == b.name,
        r.slug == b.slug,
        r.overall_score == b.overall_score,
        r.grade == b.grade,
        r.environmental_score == b.environmental_score,
        r.labor_score == b.labor_score,
        r.transparency_score == b.transparency_score,
        r.animal_welfare_score == b.animal_welfare_score,
        r.price_range == b.price_range,
        r.country == b.country,
        r.category == b.category,
        r.certifications == b.certifications,
        r.summary == b.summary,
        r.website == b.website,
        r.updated_at == b.updated_at,
        r.sources == b.sources,
        r.rationale@ == rationale_text(
            b.name@,
            b.overall_score,
            b.environmental_score,
            b.labor_score,
            b.transparency_score,
            b.animal_welfare_score,
            b.category@,
            views_of(b.certifications@),
            b.summary@,
        ),
{
    let rationale = build_rationale(
        b.name.as_str(),
        b.overall_score,
        b.environmental_score,
        b.labor_score,
        b.transparency_score,
        b.animal_welfare_score,
        b.category.as_str(),
        b.certifications.as_slice(),
        b.summary.as_str(),
    );
    BrandRating { rationale, ..b }
}

} // verus!
