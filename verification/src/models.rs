use vstd::prelude::*;
use vstd::string::*;

verus! {

/// Failure reported by the external generative transport.
#[derive(Debug)]
pub enum GeminiError {
    Http(String),
    Other(String),
}

/// The text of a transport failure.
pub open spec fn error_text(e: GeminiError) -> Seq<char> {
    match e {
        GeminiError::Http(m) => "HTTP error: "@ + m@,
        GeminiError::Other(m) => "Other: "@ + m@,
    }
}

impl GeminiError {
    /// A readable rendering of the failure, for hosts that log or display it.
    pub fn describe(&self) -> (r: String)
        ensures
            r@ == error_text(*self),
    {
        match self {
            GeminiError::Http(m) => {
                let mut r = "HTTP error: ".to_owned();
                r.append(m.as_str());
                r
            },
            GeminiError::Other(m) => {
                let mut r = "Other: ".to_owned();
                r.append(m.as_str());
                r
            },
        }
    }
}

/// Errors a workflow can surface to its caller: referencing an unknown
/// lifecycle, or a stage index at or past the stage count.
#[derive(Debug)]
pub enum LookupError {
    NotFound,
    OutOfRange,
}

/// Mathematical model of one lifecycle stage.
pub ghost struct StageSpec {
    pub name: Seq<char>,
    pub prompt: Seq<char>,
    pub description: Seq<char>,
    pub image: Option<Seq<char>>,
    pub last_updated: int,
}

impl StageSpec {
    /// Stage invariant: an image, once present, is never the empty string.
    pub open spec fn wf(self) -> bool {
        match self.image {
            Some(img) => img.len() > 0,
            None => true,
        }
    }
}

/// One named phase of a product's lifecycle, with its generation prompt,
/// narrative description and (optionally) an encoded image.
#[derive(Debug)]
pub struct StageImage {
    pub stage_name: String,
    pub prompt: String,
    pub description: String,
    pub image_base64: Option<String>,
    pub last_updated: i64,
}

impl View for StageImage {
    type V = StageSpec;

    open spec fn view(&self) -> StageSpec {
        StageSpec {
            name: self.stage_name@,
            prompt: self.prompt@,
            description: self.description@,
            image: match self.image_base64 {
                Some(s) => Some(s@),
                None => None,
            },
            last_updated: self.last_updated as int,
        }
    }
}

impl StageImage {
    /// A deep copy: callers of the store receive copies, never handles.
    pub fn duplicate(&self) -> (r: StageImage)
        ensures
            r@ == self@,
    {
        StageImage {
            stage_name: self.stage_name.clone(),
            prompt: self.prompt.clone(),
            description: self.description.clone(),
            image_base64: match &self.image_base64 {
                Some(s) => Some(s.clone()),
                None => None,
            },
            last_updated: self.last_updated,
        }
    }
}

/// The views of a sequence of strings.
pub open spec fn str_views(cs: Seq<String>) -> Seq<Seq<char>> {
    cs.map_values(|c: String| c@)
}

/// The views of a sequence of stage records.
pub open spec fn stage_views(ss: Seq<StageImage>) -> Seq<StageSpec> {
    ss.map_values(|s: StageImage| s@)
}

/// Appending a stage record extends the sequence of stage views by its view.
pub proof fn lemma_stage_views_push(s: Seq<StageImage>, st: StageImage)
    ensures
        stage_views(s.push(st)).len() == s.len() + 1,
        forall|k: int|
            0 <= k < s.len() ==> #[trigger] stage_views(s.push(st))[k] == stage_views(s)[k],
        stage_views(s.push(st))[s.len() as int] == st@,
{
    assert forall|k: int|
        0 <= k < s.len() implies #[trigger] stage_views(s.push(st))[k] == stage_views(s)[k] by {
        assert(s.push(st)[k] == s[k]);
    }
    assert(s.push(st)[s.len() as int] == st);
}

/// Mathematical model of a whole lifecycle record.
pub ghost struct LifecycleSpec {
    pub id: u128,
    pub product: Seq<char>,
    pub stages: Seq<StageSpec>,
    pub created_at: int,
    pub updated_at: int,
    pub constraints: Seq<Seq<char>>,
}

impl LifecycleSpec {
    /// Lifecycle invariant: the update stamp never precedes creation, and
    /// every stage is itself well formed.
    pub open spec fn wf(self) -> bool {
        &&& self.updated_at >= self.created_at
        &&& forall|i: int| 0 <= i < self.stages.len() ==> #[trigger] self.stages[i].wf()
    }
}

/// The aggregate record for one product's staged storyboard.
#[derive(Debug)]
pub struct Lifecycle {
    pub id: u128,
    pub product_description: String,
    pub stages: Vec<StageImage>,
    pub created_at: i64,
    pub updated_at: i64,
    pub constraints: Vec<String>,
}

impl View for Lifecycle {
    type V = LifecycleSpec;

    open spec fn view(&self) -> LifecycleSpec {
        LifecycleSpec {
            id: self.id,
            product: self.product_description@,
            stages: stage_views(self.stages@),
            created_at: self.created_at as int,
            updated_at: self.updated_at as int,
            constraints: str_views(self.constraints@),
        }
    }
}

impl Lifecycle {
    /// A deep copy: callers of the store receive copies, never handles.
    pub fn duplicate(&self) -> (r: Lifecycle)
        ensures
            r@ == self@,
    {
        let mut stages: Vec<StageImage> = Vec::new();
        let mut i: usize = 0;
        while i < self.stages.len()
            invariant
                i <= self.stages.len(),
                stages@.len() == i as int,
                forall|k: int| 0 <= k < i as int ==> #[trigger] stages@[k]@ == self.stages@[k]@,
            decreases self.stages.len() - i,
        {
            stages.push(self.stages[i].duplicate());
            i += 1;
        }
        let mut constraints: Vec<String> = Vec::new();
        let mut j: usize = 0;
        while j < self.constraints.len()
            invariant
                j <= self.constraints.len(),
                constraints@.len() == j as int,
                forall|k: int|
                    0 <= k < j as int ==> #[trigger] constraints@[k]@ == self.constraints@[k]@,
            decreases self.constraints.len() - j,
        {
            constraints.push(self.constraints[j].clone());
            j += 1;
        }
        let r = Lifecycle {
            id: self.id,
            product_description: self.product_description.clone(),
            stages,
            created_at: self.created_at,
            updated_at: self.updated_at,
            constraints,
        };
        proof {
            assert(r@.stages =~= self@.stages);
            assert(r@.constraints =~= self@.constraints);
        }
        r
    }
}

/// Body of a create request: the product, and optionally a constraint set
/// and custom stage names.
#[derive(Debug)]
pub struct GenerateRequest {
    pub product_description: String,
    pub constraints: Option<Vec<String>>,
    pub stages: Option<Vec<String>>,
}

/// Body of a regenerate-with-instruction request.
#[derive(Debug)]
pub struct RegenerateRequest {
    pub stage_index: usize,
    pub edit_instruction: String,
    pub alternative_sustainability_focus: Option<String>,
}

/// Raw material handed back by one call of the generative model: at most
/// one encoded image and any number of text parts.
#[derive(Debug)]
pub struct GeminiGenerationResult {
    pub image_data: Option<String>,
    pub texts: Vec<String>,
}

} // verus!
