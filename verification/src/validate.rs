//! Checks that the lists of a schema hold no key twice, as the mappings of
//! the document they stand for do not.

use vstd::prelude::*;
use vstd::string::*;

use crate::model::{lemma_views_empty, lemma_views_push, views};
use crate::schema::{
    distinct, lemma_properties_shape, path_models, property_names, response_models, statuses,
    templates, PathRoute, Schema, TaggedTypeSchema, TypeSchema, TypeShape,
};
use crate::text::same_text;

verus! {

/// Whether no text stands twice in `keys`.
pub fn all_distinct(keys: &Vec<String>) -> (r: bool)
    ensures
        r == distinct(views(keys@)),
{
    let mut i: usize = 0;
    while i < keys.len()
        invariant
            i <= keys.len(),
            forall|a: int, b: int| 0 <= a < b < keys@.len() && a < i ==> keys@[a]@ != keys@[b]@,
        decreases keys.len() - i,
    {
        let mut j: usize = i + 1;
        while j < keys.len()
            invariant
                i < j <= keys.len(),
                forall|b: int| i < b < j ==> keys@[i as int]@ != keys@[b]@,
            decreases keys.len() - j,
        {
            if same_text(keys[i].as_str(), keys[j].as_str()) {
                proof {
                    assert(views(keys@)[i as int] == views(keys@)[j as int]);
                }
                return false;
            }
            j += 1;
        }
        i += 1;
    }
    proof {
        assert forall|a: int, b: int| 0 <= a < b < views(keys@).len() implies views(keys@)[a]
            != views(keys@)[b] by {
            assert(keys@[a]@ != keys@[b]@);
        }
    }
    true
}

impl TypeSchema {
    /// Whether every object below this node names each property once.
    pub fn is_well_formed(&self) -> (r: bool)
        ensures
            r == self@.well_formed(),
        decreases self,
    {
        match self {
            TypeSchema::Empty(_) => true,
            TypeSchema::Tagged(tagged) => match tagged {
                TaggedTypeSchema::Object { properties } => {
                    let ghost shapes = self@->Object_0;
                    proof {
                        lemma_properties_shape(properties@, properties@.len());
                    }
                    let mut names: Vec<String> = Vec::new();
                    let mut i: usize = 0;
                    proof {
                        lemma_views_empty(names@);
                    }
                    while i < properties.len()
                        invariant
                            i <= properties.len(),
                            shapes.len() == properties.len(),
                            forall|j: int|
                                0 <= j < shapes.len() ==> (#[trigger] shapes[j]).name
                                    == properties@[j].0@,
                            views(names@) == property_names(shapes).take(i as int),
                        decreases properties.len() - i,
                    {
                        let name = properties[i].0.clone();
                        proof {
                            lemma_views_push(names@, name);
                            assert(property_names(shapes).take(i + 1) =~= property_names(
                                shapes,
                            ).take(i as int).push(name@));
                        }
                        names.push(name);
                        i += 1;
                    }
                    proof {
                        assert(property_names(shapes).take(properties.len() as int)
                            =~= property_names(shapes));
                    }
                    if !all_distinct(&names) {
                        return false;
                    }
                    let mut k: usize = 0;
                    while k < properties.len()
                        invariant
                            k <= properties.len(),
                            self@ == TypeShape::Object(shapes),
                            self == TypeSchema::Tagged(*tagged),
                            *tagged == (TaggedTypeSchema::Object { properties: *properties }),
                            shapes.len() == properties.len(),
                            forall|j: int|
                                0 <= j < shapes.len() ==> (#[trigger] shapes[j]).shape
                                    == properties@[j].1.shape(),
                            forall|j: int| 0 <= j < k ==> (#[trigger] shapes[j]).shape.well_formed(),
                        decreases properties.len() - k,
                    {
                        proof {
                            vstd::std_specs::vec::axiom_vec_index_decreases(*properties, k as int);
                            assert(decreases_to!(*self => self->Tagged_0));
                            assert(decreases_to!(*tagged => tagged->properties));
                        }
                        if !properties[k].1.is_well_formed() {
                            proof {
                                assert(!shapes[k as int].shape.well_formed());
                            }
                            return false;
                        }
                        k += 1;
                    }
                    true
                },
                TaggedTypeSchema::Array { items } => items.is_well_formed(),
                _ => true,
            },
        }
    }
}

impl PathRoute {
    /// Whether the route names no status code twice and holds well-formed
    /// schemas only.
    pub fn is_well_formed(&self) -> (r: bool)
        ensures
            r == self@.well_formed(),
    {
        let mut i: usize = 0;
        while i < self.parameters.len()
            invariant
                i <= self.parameters.len(),
                forall|j: int|
                    0 <= j < i ==> (#[trigger] self@.parameters[j]).shape.well_formed(),
            decreases self.parameters.len() - i,
        {
            proof {
                assert(self@.parameters[i as int] == self.parameters@[i as int]@);
            }
            if !self.parameters[i].schema.is_well_formed() {
                return false;
            }
            i += 1;
        }
        proof {
            assert(self@.parameters.len() == self.parameters@.len());
        }
        let ghost models = self@.responses;
        let mut codes: Vec<String> = Vec::new();
        let mut j: usize = 0;
        proof {
            lemma_views_empty(codes@);
        }
        while j < self.responses.len()
            invariant
                j <= self.responses.len(),
                models == response_models(self.responses@),
                views(codes@) == statuses(models).take(j as int),
            decreases self.responses.len() - j,
        {
            let code = self.responses[j].0.clone();
            proof {
                lemma_views_push(codes@, code);
                assert(models[j as int].status == code@);
                assert(statuses(models).take(j + 1) =~= statuses(models).take(j as int).push(
                    code@,
                ));
            }
            codes.push(code);
            j += 1;
        }
        proof {
            assert(statuses(models).take(self.responses.len() as int) =~= statuses(models));
        }
        if !all_distinct(&codes) {
            return false;
        }
        let mut r: usize = 0;
        while r < self.responses.len()
            invariant
                r <= self.responses.len(),
                models == response_models(self.responses@),
                models == self@.responses,
                forall|a: int, b: int|
                    0 <= a < r && 0 <= b < models[a].content.len() ==> (#[trigger] models[a].content[b]).well_formed(),
            decreases self.responses.len() - r,
        {
            let content = &self.responses[r].1.content;
            let ghost shapes = models[r as int].content;
            let mut c: usize = 0;
            while c < content.len()
                invariant
                    c <= content.len(),
                    r < self.responses.len(),
                    models == self@.responses,
                    models.len() == self.responses@.len(),
                    shapes == models[r as int].content,
                    shapes.len() == content@.len(),
                    forall|b: int| 0 <= b < shapes.len() ==> #[trigger] shapes[b] == content@[b].1.schema@,
                    forall|b: int| 0 <= b < c ==> (#[trigger] shapes[b]).well_formed(),
                decreases content.len() - c,
            {
                if !content[c].1.schema.is_well_formed() {
                    proof {
                        assert(!models[r as int].content[c as int].well_formed());
                    }
                    return false;
                }
                c += 1;
            }
            r += 1;
        }
        proof {
            assert(models.len() == self.responses@.len());
        }
        true
    }
}

impl Schema {
    /// Whether the document names no path twice and holds well-formed
    /// routes only.
    pub fn is_well_formed(&self) -> (r: bool)
        ensures
            r == self@.well_formed(),
    {
        let paths = &self.paths.0;
        let ghost models = self@.paths;
        let mut names: Vec<String> = Vec::new();
        let mut i: usize = 0;
        proof {
            lemma_views_empty(names@);
        }
        while i < paths.len()
            invariant
                i <= paths.len(),
                models == path_models(paths@),
                views(names@) == templates(models).take(i as int),
            decreases paths.len() - i,
        {
            let name = paths[i].0.clone();
            proof {
                lemma_views_push(names@, name);
                assert(models[i as int].path == name@);
                assert(templates(models).take(i + 1) =~= templates(models).take(i as int).push(
                    name@,
                ));
            }
            names.push(name);
            i += 1;
        }
        proof {
            assert(templates(models).take(paths.len() as int) =~= templates(models));
        }
        if !all_distinct(&names) {
            return false;
        }
        let mut k: usize = 0;
        while k < paths.len()
            invariant
                k <= paths.len(),
                models == path_models(paths@),
                models == self@.paths,
                forall|j: int|
                    0 <= j < k ==> ((#[trigger] models[j]).get matches Some(route)
                        ==> route.well_formed()),
            decreases paths.len() - k,
        {
            let ghost model = models[k as int];
            match &paths[k].1.get {
                None => {
                    proof {
                        assert(model.get is None);
                    }
                },
                Some(route) => {
                    proof {
                        assert(model.get == Some(route@));
                    }
                    if !route.is_well_formed() {
                        proof {
                            assert(self@.paths[k as int].get == Some(route@));
                        }
                        return false;
                    }
                },
            }
            k += 1;
        }
        proof {
            assert(models.len() == paths@.len());
        }
        true
    }
}

} // verus!
