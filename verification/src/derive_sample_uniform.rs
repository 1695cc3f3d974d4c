use vstd::prelude::*;

verus! {

/// The input of `#[derive(SampleUniform)]`: the item's name (as an identifier fragment, without
/// a raw prefix) and the path given by `#[sample_uniform(sampler_path = ...)]`, as text.
#[derive(Clone, Debug, PartialEq, Eq)]
pub struct DeriveData {
    pub ident: String,
    pub sampler_path: Option<String>,
}

/// The generated `impl ::rand::distributions::uniform::SampleUniform for Type { type Sampler =
/// Path; }`: the trait is always `SampleUniform`, the one whose associated type `Sampler` names
/// the sampler of the type.
#[derive(Clone, Debug, PartialEq, Eq)]
pub struct SamplerImpl {
    pub ty_name: String,
    pub sampler_path: String,
}

/// The sampler path that an item named `ident` gets when none is given:
/// `self::<ident>UniformSampler`, the sampler that `#[generate_uniform_sampler]` places beside
/// the item.
pub open spec fn default_sampler_path(ident: Seq<char>) -> Seq<char> {
    seq!['s', 'e', 'l', 'f', ':', ':'] + ident + seq![
        'U',
        'n',
        'i',
        'f',
        'o',
        'r',
        'm',
        'S',
        'a',
        'm',
        'p',
        'l',
        'e',
        'r',
    ]
}

impl DeriveData {
    /// Fills in the default sampler path `self::<ident>UniformSampler` when none is given; a
    /// given path is kept.
    pub fn check_and_correct(self) -> (r: DeriveData)
        ensures
            r.ident == self.ident,
            match self.sampler_path {
                Some(p) => r.sampler_path == Some(p),
                None => r.sampler_path matches Some(p) && p@ == default_sampler_path(self.ident@),
            },
    {
        let DeriveData { ident, sampler_path } = self;
        let sampler_path = match sampler_path {
            Some(p) => Some(p),
            None => {
                proof {
                    reveal_strlit("self::");
                    reveal_strlit("UniformSampler");
                }
                let p = String::from_str("self::").concat(ident.as_str()).concat("UniformSampler");
                assert(p@ =~= default_sampler_path(ident@));
                Some(p)
            },
        };
        DeriveData { ident, sampler_path }
    }

    /// The generated impl that points the type at its sampler.
    pub fn sampler_impl(&self) -> (r: SamplerImpl)
        requires
            self.sampler_path is Some,
        ensures
            r.ty_name == self.ident,
            r.sampler_path == self.sampler_path->0,
    {
        match &self.sampler_path {
            Some(p) => SamplerImpl { ty_name: self.ident.clone(), sampler_path: p.clone() },
            None => {
                assert(false);
                SamplerImpl { ty_name: self.ident.clone(), sampler_path: self.ident.clone() }
            },
        }
    }
}

} // verus!
